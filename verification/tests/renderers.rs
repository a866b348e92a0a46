use hudhook::failure::Failure;
use hudhook::frame::Frame;
use hudhook::renderer::{
    Cleanup, CleanupAction, CleanupEvent, ImguiRenderLoop, ImguiRenderLoopFlags, ImguiRenderer,
    RendererSetup, SetupAction, SetupEvent, GWLP_WNDPROC,
};
use hudhook::slots::HookSlots;

#[derive(Debug, PartialEq, Eq)]
struct Recorder {
    seen: Vec<bool>,
}

impl ImguiRenderLoop for Recorder {
    fn render(&mut self, ui: &mut imgui::Ui<'_>, flags: &ImguiRenderLoopFlags) {
        assert!(ui.io().display_size[0] > 0.0);
        self.seen.push(flags.focused);
    }
}

fn setup<L>(render_loop: L, focused: bool) -> ImguiRenderer<&'static str, L> {
    let setup = ImguiRenderer::new("first");
    assert_eq!(setup.next(), SetupAction::GetDevice);
    let setup = setup.advance(SetupEvent::DeviceGot { given: true });
    assert_eq!(setup.next(), SetupAction::GetContext);
    let setup = setup.advance(SetupEvent::ContextGot { given: true });
    assert_eq!(setup.next(), SetupAction::Describe);
    let setup = setup.advance(SetupEvent::Described { window: Some(6) });
    assert_eq!(setup.next(), SetupAction::BuildEngine);
    let setup = setup.advance(SetupEvent::EngineBuilt);
    assert_eq!(setup.next(), SetupAction::TakeRenderLoop);
    let mut slots = HookSlots::new();
    slots.arm(3, 0x100);
    let setup = setup.take_from(&mut slots);
    assert_eq!(slots.render_loop(), None);
    assert_eq!(slots.trampoline(), Some(0x100));
    assert_eq!(setup.next(), SetupAction::FetchRenderLoop { id: 3 });
    let setup = setup.advance(SetupEvent::RenderLoopFetched { render_loop });
    assert_eq!(setup.next(), SetupAction::TakeWindow { window: 6, index: -4 });
    let setup = setup.advance(SetupEvent::WindowTaken { previous: 99 });
    assert_eq!(setup.next(), SetupAction::ForgetIni);
    let setup = setup.advance(SetupEvent::IniForgotten);
    assert_eq!(setup.next(), SetupAction::AskFocus { window: 6 });
    let setup = setup.advance(SetupEvent::FocusAsked { focused });
    assert_eq!(setup.next(), SetupAction::InitIo);
    let setup = setup.advance(SetupEvent::IoReady);
    assert_eq!(setup.next(), SetupAction::Stop);
    setup.into_renderer().unwrap()
}

fn renderer() -> ImguiRenderer<&'static str, u8> {
    setup(41, true)
}

#[test]
fn setup_ends_in_a_renderer_that_knows_the_focus() {
    for focused in [true, false] {
        let renderer = setup(41u8, focused);
        assert_eq!(
            renderer,
            ImguiRenderer {
                render_loop: 41,
                wnd_proc: 99,
                flags: ImguiRenderLoopFlags { focused },
                swap_chain: "first"
            }
        );
        assert_eq!(renderer.is_focus(), focused);
        assert_eq!(renderer.get_wnd_proc(), 99);
    }
}

#[test]
fn setup_fails_where_something_is_missing() {
    let failed = RendererSetup::<u8, u8>::GettingDevice { swap_chain: 1u8 }
        .advance(SetupEvent::DeviceGot { given: false });
    assert_eq!(failed.next(), SetupAction::Fail { failure: Failure::GetDevice });
    let failed = RendererSetup::<u8, u8>::GettingContext { swap_chain: 1u8 }
        .advance(SetupEvent::ContextGot { given: false });
    assert_eq!(failed.next(), SetupAction::Fail { failure: Failure::NoContext });
    let failed = RendererSetup::<u8, u8>::Describing { swap_chain: 1u8 }
        .advance(SetupEvent::Described { window: None });
    assert_eq!(failed.next(), SetupAction::Fail { failure: Failure::GetDesc });
    let failed = RendererSetup::<u8, u8>::TakingLoop { swap_chain: 1u8, window: 6 }
        .take_from(&mut HookSlots::new());
    assert_eq!(failed.next(), SetupAction::Fail { failure: Failure::NoRenderLoop });
    assert_eq!(failed.clone().into_renderer(), None);
    assert_eq!(failed.clone().advance(SetupEvent::IoReady), failed);
    assert_eq!(Failure::GetDevice.message(), "GetDevice");
    let unwrapped = "called `Option::unwrap()` on a `None` value";
    assert_eq!(Failure::NoContext.message(), unwrapped);
    assert_eq!(Failure::NoRenderLoop.message(), unwrapped);
    assert_eq!(Failure::NoSwapChain.message(), unwrapped);
    let erred = "called `Result::unwrap()` on an `Err` value";
    assert_eq!(Failure::CleanupGetDesc.message(), erred);
}

#[test]
fn swap_chain_is_replaced_where_one_is_handed_over() {
    let mut renderer = renderer();
    assert_eq!(renderer.store_swap_chain(None), "first");
    assert_eq!(renderer.store_swap_chain(Some("second")), "second");
    assert_eq!(renderer.swap_chain, "second");
    assert_eq!(renderer.render(None), ("second", Frame::Describing));
    assert_eq!(renderer.render(Some("third")), ("third", Frame::Describing));
    assert_eq!(renderer.swap_chain, "third");
}

#[test]
fn focus_is_kept() {
    let mut renderer = renderer();
    renderer.set_focus(false);
    assert!(!renderer.is_focus());
    renderer.set_focus(true);
    assert!(renderer.is_focus());
}

#[test]
fn cleanup_gives_back_the_window_procedure() {
    let mut renderer = renderer();
    renderer.set_focus(false);
    renderer.render(Some("second"));
    let (swap_chain, cleanup) = renderer.cleanup(None);
    assert_eq!(swap_chain, "second");
    assert_eq!(cleanup.next(), CleanupAction::Describe);
    let cleanup = cleanup.advance(CleanupEvent::Described { window: Some(8) });
    assert_eq!(
        cleanup.next(),
        CleanupAction::GiveWindow { window: 8, index: -4, wnd_proc: 99 }
    );
    let cleanup = cleanup.advance(CleanupEvent::WindowGiven);
    assert_eq!(cleanup.next(), CleanupAction::Stop);
    assert_eq!(renderer.cleanup(Some("third")).0, "third");
}

#[test]
fn cleanup_fails_without_a_description() {
    let cleanup =
        Cleanup::Describing { wnd_proc: 99 }.advance(CleanupEvent::Described { window: None });
    assert_eq!(cleanup.next(), CleanupAction::Fail { failure: Failure::CleanupGetDesc });
    assert_eq!(cleanup.advance(CleanupEvent::WindowGiven), cleanup);
}

#[test]
fn index_of_the_window_procedure_is_the_system_s() {
    assert_eq!(GWLP_WNDPROC, windows::Win32::UI::WindowsAndMessaging::GWLP_WNDPROC.0);
}

#[test]
fn render_loop_is_told_of_the_focus() {
    let mut context = imgui::Context::create();
    context.set_ini_filename(None);
    context.io_mut().display_size = [800.0, 600.0];
    context.io_mut().delta_time = 0.1;
    context.fonts().build_rgba32_texture();
    let mut renderer = setup(Recorder { seen: Vec::new() }, true);
    let mut ui = context.frame();
    renderer.draw(&mut ui);
    renderer.set_focus(false);
    renderer.draw(&mut ui);
    assert_eq!(renderer.render_loop.seen, vec![true, false]);
    assert_eq!(renderer.wnd_proc, 99);
}

#[test]
fn setup_touches_the_slots_only_when_it_takes_the_render_loop() {
    let mut slots = HookSlots::new();
    slots.arm(3, 0x100);
    let setup = RendererSetup::<u8, u8>::Describing { swap_chain: 1 };
    assert_eq!(setup.clone().take_from(&mut slots), setup);
    assert_eq!(slots.render_loop(), Some(3));
}

#[test]
fn focus_outlasts_frames() {
    let mut renderer = setup(41u8, false);
    renderer.render(Some("second"));
    renderer.store_swap_chain(Some("third"));
    assert!(!renderer.is_focus());
    renderer.set_focus(true);
    renderer.render(None);
    assert!(renderer.is_focus());
}
