use hudhook::failure::Failure;
use hudhook::hooks::{
    imgui_dxgi_swap_chain_present_impl, Hooking, HookingAction, HookingEvent, ImguiDX11Hooks,
    PresentAction, PresentCall, PresentEvent, Presented, Unhooking, UnhookingAction,
    UnhookingEvent,
};
use hudhook::renderer::{RendererSetup, SetupAction};
use hudhook::slots::HookSlots;

#[test]
fn new_slots_hold_nothing() {
    let mut slots = HookSlots::new();
    assert_eq!(slots.trampoline(), None);
    assert_eq!(slots.render_loop(), None);
    assert_eq!(slots.renderer(), None);
    assert_eq!(slots.take_render_loop(), None);
    assert_eq!(slots.take_renderer(), None);
}

#[test]
fn arming_tells_what_is_kept() {
    let mut slots = HookSlots::new();
    assert_eq!(slots.arm(41, 0x100), 0x100);
    assert_eq!(slots.arm(42, 0x200), 0x100);
    assert_eq!(slots.take_render_loop(), Some(42));
    assert_eq!(slots.take_render_loop(), None);
    assert_eq!(slots.arm(43, 0x300), 0x100);
    assert_eq!(slots.render_loop(), Some(43));
    assert_eq!(slots.trampoline(), Some(0x100));
}

#[test]
fn first_renderer_is_kept_until_it_is_taken() {
    let mut slots = HookSlots::new();
    assert_eq!(slots.keep_renderer(7), 7);
    assert_eq!(slots.keep_renderer(8), 7);
    assert_eq!(slots.renderer(), Some(7));
    assert_eq!(slots.take_renderer(), Some(7));
    assert_eq!(slots.renderer(), None);
    assert_eq!(slots.keep_renderer(8), 8);
    assert_eq!(slots.render_loop(), None);
    assert_eq!(slots.trampoline(), None);
}

#[test]
fn frame_is_rendered_and_then_handed_on() {
    let mut slots = HookSlots::new();
    slots.arm(41, 0x100);
    slots.keep_renderer(7);
    let call = imgui_dxgi_swap_chain_present_impl(&slots, "chain", 1, 2);
    assert_eq!(call.next(), PresentAction::LockRenderer { renderer: 7 });
    let call = call.advance(PresentEvent::RendererLocked);
    assert_eq!(call.next(), PresentAction::Render { renderer: 7, swap_chain: &"chain" });
    let call = call.advance(PresentEvent::Rendered);
    assert_eq!(call.next(), PresentAction::Release { renderer: 7 });
    let call = call.advance(PresentEvent::Released);
    let presented = Presented { swap_chain: "chain", sync_interval: 1, flags: 2 };
    assert_eq!(call.next(), PresentAction::Forward { trampoline: 0x100, presented: &presented });
    let call = call.advance(PresentEvent::Forwarded { result: -5 });
    assert_eq!(call.next(), PresentAction::Return { result: -5 });
    assert_eq!(call.clone().advance(PresentEvent::Rendered), call);
}

#[test]
fn only_the_first_frame_sets_up_a_renderer() {
    let mut slots = HookSlots::new();
    slots.arm(41, 0x100);
    for (swap_chain, fresh) in [("first", 7), ("second", 8), ("third", 9)] {
        let mut call = imgui_dxgi_swap_chain_present_impl(&slots, swap_chain, 0, 0);
        if swap_chain == "first" {
            assert_eq!(call.next(), PresentAction::SetUp { swap_chain: &"first" });
            assert_eq!(slots.take_render_loop(), Some(41));
            call = call.advance(PresentEvent::RendererReady { renderer: fresh });
            assert_eq!(call.next(), PresentAction::Keep { renderer: fresh });
            call = call.keep_in(&mut slots);
            assert_eq!(slots.renderer(), Some(fresh));
        }
        assert_eq!(call.next(), PresentAction::LockRenderer { renderer: 7 });
        let call = call.advance(PresentEvent::RendererLocked);
        assert_eq!(call.next(), PresentAction::Render { renderer: 7, swap_chain: &swap_chain });
    }
}

#[test]
fn renderer_that_was_kept_first_is_locked() {
    let mut slots = HookSlots::new();
    slots.arm(41, 0x100);
    let call = imgui_dxgi_swap_chain_present_impl(&slots, (), 0, 0);
    let call = call.advance(PresentEvent::RendererReady { renderer: 8 });
    slots.keep_renderer(7);
    let call = call.keep_in(&mut slots);
    assert_eq!(call.next(), PresentAction::LockRenderer { renderer: 7 });
    assert_eq!(call.clone().keep_in(&mut slots), call);
    assert_eq!(slots.renderer(), Some(7));
}

#[test]
fn frame_without_a_renderer_is_not_handed_on() {
    let mut slots = HookSlots::new();
    slots.arm(41, 0x100);
    let failure = Failure::GetDevice;
    let call = imgui_dxgi_swap_chain_present_impl(&slots, (), 0, 0)
        .advance(PresentEvent::SetUpFailed { failure });
    assert_eq!(call.next(), PresentAction::Fail { failure });
    assert_eq!(call.clone().advance(PresentEvent::Released), call);
}

#[test]
fn frame_that_is_not_rendered_is_released_and_not_handed_on() {
    let mut slots = HookSlots::new();
    slots.arm(41, 0x100);
    slots.keep_renderer(7);
    let failure = Failure::GetDesc;
    let call = imgui_dxgi_swap_chain_present_impl(&slots, (), 0, 0)
        .advance(PresentEvent::RendererLocked)
        .advance(PresentEvent::RenderFailed { failure });
    assert_eq!(call.next(), PresentAction::Release { renderer: 7 });
    let call = call.advance(PresentEvent::Released);
    assert_eq!(call.next(), PresentAction::Fail { failure });
    assert_eq!(call.clone().advance(PresentEvent::Forwarded { result: 0 }), call);
}

#[test]
fn frame_before_any_hook_fails() {
    let call = imgui_dxgi_swap_chain_present_impl(&HookSlots::new(), (), 1, 2);
    let failure = Failure::TrampolineUninitialized;
    assert_eq!(call.next(), PresentAction::Fail { failure });
    assert_eq!(failure.message(), "IDXGISwapChain::Present trampoline uninitialized");
    assert_eq!(call.advance(PresentEvent::RendererLocked), PresentCall::Failed { failure });
}

#[test]
fn hook_enables_its_detour_once() {
    let hooks = ImguiDX11Hooks { hook_present: "detour" };
    for success in [true, false] {
        let hooking = hooks.hook();
        assert_eq!(hooking.next(), HookingAction::Enable { detour: &"detour" });
        let hooking = hooking.advance(HookingEvent::Enabled { success });
        assert_eq!(hooking.next(), HookingAction::Stop);
        assert_eq!(hooking.advance(HookingEvent::Enabled { success: true }), Hooking::Finished);
    }
}

#[test]
fn unhooking_takes_everything_down() {
    let mut hooks = ImguiDX11Hooks { hook_present: "detour" };
    for success in [true, false] {
        for n in 0..4 {
            let (has_renderer, has_loop) = (n % 2 == 0, n / 2 == 0);
            let mut slots = HookSlots::new();
            slots.arm(41, 0x100);
            if has_renderer {
                slots.keep_renderer(7);
            }
            if !has_loop {
                slots.take_render_loop();
            }
            let unhooking = hooks.unhook();
            assert_eq!(unhooking.next(), UnhookingAction::Disable { detour: &"detour" });
            let unhooking = unhooking.advance(UnhookingEvent::Disabled { success });
            assert_eq!(unhooking.next(), UnhookingAction::TakeRenderer);
            let mut unhooking = unhooking.take_from(&mut slots);
            assert_eq!(slots.renderer(), None);
            if has_renderer {
                assert_eq!(unhooking.next(), UnhookingAction::CleanUp { renderer: 7 });
                unhooking = unhooking.advance(UnhookingEvent::CleanedUp);
            }
            assert_eq!(unhooking.next(), UnhookingAction::TakeRenderLoop);
            let mut unhooking = unhooking.take_from(&mut slots);
            if has_loop {
                assert_eq!(unhooking.next(), UnhookingAction::DropRenderLoop { render_loop: 41 });
                unhooking = unhooking.advance(UnhookingEvent::RenderLoopDropped);
            }
            assert_eq!(unhooking.next(), UnhookingAction::Stop);
            assert_eq!(unhooking, Unhooking::Finished);
            assert_eq!(slots.render_loop(), None);
            assert_eq!(slots.trampoline(), Some(0x100));
        }
    }
}

#[test]
fn failed_cleanup_ends_the_unhooking() {
    let mut slots = HookSlots::new();
    slots.arm(41, 0x100);
    slots.keep_renderer(7);
    let mut hooks = ImguiDX11Hooks { hook_present: () };
    let failure = Failure::CleanupGetDesc;
    let failed = hooks
        .unhook()
        .advance(UnhookingEvent::Disabled { success: true })
        .take_from(&mut slots)
        .advance(UnhookingEvent::CleanUpFailed { failure });
    assert_eq!(failed.next(), UnhookingAction::Fail { failure });
    let failed = failed.advance(UnhookingEvent::CleanedUp).take_from(&mut slots);
    assert_eq!(failed, Unhooking::Failed { failure });
    assert_eq!(slots.render_loop(), Some(41));
}

#[test]
fn renderer_finds_the_render_loop_of_the_last_hook() {
    let mut slots = HookSlots::new();
    slots.arm(41, 0x100);
    slots.arm(42, 0x200);
    let taking = RendererSetup::<(), u8>::TakingLoop { swap_chain: (), window: 6 };
    let first = taking.clone().take_from(&mut slots);
    assert_eq!(first.next(), SetupAction::FetchRenderLoop { id: 42 });
    let second = taking.clone().take_from(&mut slots);
    assert_eq!(second.next(), SetupAction::Fail { failure: Failure::NoRenderLoop });
    slots.arm(43, 0x300);
    let third = taking.take_from(&mut slots);
    assert_eq!(third.next(), SetupAction::FetchRenderLoop { id: 43 });
}

#[test]
fn failure_is_reported_with_the_error_behind_it() {
    assert_eq!(Failure::GetDevice.report("E1"), "GetDevice: E1");
    assert_eq!(Failure::GetDesc.report("E2"), "GetDesc: E2");
    assert_eq!(
        Failure::CleanupGetDesc.report("E3"),
        "called `Result::unwrap()` on an `Err` value: E3"
    );
    assert_eq!(
        Failure::CreateDevice.report("E4"),
        "D3D11CreateDeviceAndSwapChain failed: E4"
    );
    assert_eq!(Failure::CreateDetour.report("E5"), "Create detour: E5");
    assert_eq!(
        Failure::TrampolineUninitialized.report(""),
        "IDXGISwapChain::Present trampoline uninitialized"
    );
    for failure in [Failure::NoContext, Failure::NoRenderLoop, Failure::NoSwapChain] {
        assert_eq!(failure.report("E6"), "called `Option::unwrap()` on a `None` value");
    }
}
