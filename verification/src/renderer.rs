//! The renderer of the overlay and the window procedure that it takes over.
use crate::failure::Failure;
use crate::frame::Frame;
use crate::slots::{HookSlots, SlotsView};
use vstd::prelude::*;

verus! {

/// Index of a window's procedure.
pub const GWLP_WNDPROC: i32 = -4;

/// Holds information useful to the render loop which can't be retrieved from
/// `imgui::Ui`.
#[derive(Clone, Copy, Debug, PartialEq, Eq, Structural)]
pub struct ImguiRenderLoopFlags {
    /// Whether the hooked program's window is currently focused.
    pub focused: bool,
}

/// The type `imgui::Ui`, which is handed on and never looked into.
#[verifier::external_type_specification]
#[verifier::external_body]
pub struct ExUi<'ui>(imgui::Ui<'ui>);

/// Implement your `imgui` rendering logic via this trait.
pub trait ImguiRenderLoop {
    /// The state of the render loop, as a number of the implementor's choice; by default
    /// all states count as one.
    open spec fn state(&self) -> int {
        0
    }

    /// The render loop is what one call of `render` with `flags` may make of one in the
    /// state `before`; by default that is any.
    open spec fn rendered_from(&self, before: int, flags: ImguiRenderLoopFlags) -> bool {
        true
    }

    /// Called every frame. Use the provided `ui` object to build your UI.
    fn render(&mut self, ui: &mut imgui::Ui<'_>, flags: &ImguiRenderLoopFlags)
        ensures
            final(self).rendered_from(old(self).state(), *flags),
    ;
}

/// The renderer of a swap chain `S` that draws the render loop `L`.
#[derive(Clone, Debug, PartialEq, Eq)]
pub struct ImguiRenderer<S, L> {
    /// The render loop that it draws.
    pub render_loop: L,
    /// The window procedure that it took over.
    pub wnd_proc: isize,
    /// What it tells the render loop.
    pub flags: ImguiRenderLoopFlags,
    /// The swap chain that it draws to.
    pub swap_chain: S,
}

impl<S, L> ImguiRenderer<S, L> {
    /// The renderer once it has been handed `swap_chain`.
    pub open spec fn with_swap_chain(self, swap_chain: Option<S>) -> ImguiRenderer<S, L> {
        match swap_chain {
            Some(swap_chain) => ImguiRenderer { swap_chain, ..self },
            None => self,
        }
    }

    /// Starts to set up a renderer of `swap_chain`.
    pub fn new(swap_chain: S) -> (setup: RendererSetup<S, L>)
        ensures
            setup == (RendererSetup::<S, L>::GettingDevice { swap_chain }),
    {
        RendererSetup::GettingDevice { swap_chain }
    }

    /// Keeps the swap chain that it is handed, if any, and tells which one is kept.
    pub fn store_swap_chain(&mut self, swap_chain: Option<S>) -> (kept: S) where S: Clone
        ensures
            *final(self) == old(self).with_swap_chain(swap_chain),
            match swap_chain {
                Some(handed) => final(self).swap_chain == handed,
                None => final(self).swap_chain == old(self).swap_chain,
            },
            final(self).render_loop == old(self).render_loop,
            final(self).wnd_proc == old(self).wnd_proc,
            final(self).flags == old(self).flags,
            cloned(final(self).swap_chain, kept),
    {
        if let Some(swap_chain) = swap_chain {
            self.swap_chain = swap_chain;
        }
        self.swap_chain.clone()
    }

    /// Starts a frame on the swap chain that it is handed, if any, or else on the one
    /// that it has, and tells which one that is.
    pub fn render(&mut self, swap_chain: Option<S>) -> (started: (S, Frame)) where S: Clone
        ensures
            *final(self) == old(self).with_swap_chain(swap_chain),
            match swap_chain {
                Some(handed) => final(self).swap_chain == handed,
                None => final(self).swap_chain == old(self).swap_chain,
            },
            final(self).render_loop == old(self).render_loop,
            final(self).wnd_proc == old(self).wnd_proc,
            final(self).flags == old(self).flags,
            cloned(final(self).swap_chain, started.0),
            started.1 == Frame::Describing,
    {
        let swap_chain = self.store_swap_chain(swap_chain);
        (swap_chain, Frame::Describing)
    }

    /// Lets its render loop build its user interface, once, with its flags.
    pub fn draw(&mut self, ui: &mut imgui::Ui<'_>) where L: ImguiRenderLoop
        ensures
            final(self).render_loop.rendered_from(old(self).render_loop.state(), old(self).flags),
            *final(self) == (ImguiRenderer {
                render_loop: final(self).render_loop,
                ..*old(self)
            }),
    {
        self.render_loop.render(ui, &self.flags);
    }

    /// Starts to give back the window procedure, on the swap chain that it is handed, if
    /// any, or else on the one that it has, and tells which one that is.
    pub fn cleanup(&mut self, swap_chain: Option<S>) -> (started: (S, Cleanup)) where S: Clone
        ensures
            *final(self) == old(self).with_swap_chain(swap_chain),
            match swap_chain {
                Some(handed) => final(self).swap_chain == handed,
                None => final(self).swap_chain == old(self).swap_chain,
            },
            final(self).render_loop == old(self).render_loop,
            final(self).wnd_proc == old(self).wnd_proc,
            final(self).flags == old(self).flags,
            cloned(final(self).swap_chain, started.0),
            started.1 == (Cleanup::Describing { wnd_proc: old(self).wnd_proc }),
    {
        let swap_chain = self.store_swap_chain(swap_chain);
        (swap_chain, Cleanup::Describing { wnd_proc: self.wnd_proc })
    }

    /// Takes in whether the window is focused.
    pub fn set_focus(&mut self, focus: bool)
        ensures
            *final(self) == (ImguiRenderer {
                flags: ImguiRenderLoopFlags { focused: focus },
                ..*old(self)
            }),
    {
        self.flags.focused = focus;
    }

    /// Whether the window is focused.
    pub fn is_focus(&self) -> (focused: bool)
        ensures
            focused == self.flags.focused,
    {
        self.flags.focused
    }

    /// The window procedure that it took over.
    pub fn get_wnd_proc(&self) -> (wnd_proc: isize)
        ensures
            wnd_proc == self.wnd_proc,
    {
        self.wnd_proc
    }
}

/// The setup of a renderer, by the call it waits for.
#[derive(Clone, Debug, PartialEq, Eq)]
pub enum RendererSetup<S, L> {
    /// The swap chain is to be asked for its device.
    GettingDevice { swap_chain: S },
    /// The device is to be asked for its immediate context.
    GettingContext { swap_chain: S },
    /// The window is to be learnt from the swap chain.
    Describing { swap_chain: S },
    /// The engine that draws is to be created.
    BuildingEngine { swap_chain: S, window: isize },
    /// The render loop is to be taken from the slots.
    TakingLoop { swap_chain: S, window: isize },
    /// The render loop that the slots held as `id` is to be fetched.
    FetchingLoop { swap_chain: S, window: isize, id: usize },
    /// The window procedure is to be taken over.
    TakingWindow { swap_chain: S, window: isize, render_loop: L },
    /// The user interface is to be kept from writing its settings to disk.
    ForgettingIni { swap_chain: S, window: isize, render_loop: L, wnd_proc: isize },
    /// Whether the window has the focus is to be found out.
    AskingFocus { swap_chain: S, window: isize, render_loop: L, wnd_proc: isize },
    /// The input of the user interface is to be set up.
    InitialisingIo { renderer: ImguiRenderer<S, L> },
    /// The renderer is ready.
    Ready { renderer: ImguiRenderer<S, L> },
    /// There will be no renderer.
    Failed { failure: Failure },
}

/// The call that a setup waits for.
#[derive(Clone, Copy, Debug, PartialEq, Eq)]
pub enum SetupAction {
    /// Ask the swap chain for its device.
    GetDevice,
    /// Ask the device for its immediate context.
    GetContext,
    /// Ask the swap chain for its description.
    Describe,
    /// Create the engine that draws.
    BuildEngine,
    /// Take the render loop from the slots, with `take_from`.
    TakeRenderLoop,
    /// Fetch the render loop that the slots held as `id`.
    FetchRenderLoop { id: usize },
    /// Set the value `index` of the window to the procedure of the overlay.
    TakeWindow { window: isize, index: i32 },
    /// Give the user interface no file for its settings.
    ForgetIni,
    /// Ask whether the window has the focus.
    AskFocus { window: isize },
    /// Set up the input of the user interface.
    InitIo,
    /// Nothing: the renderer is ready.
    Stop,
    /// Nothing: the setup has failed.
    Fail { failure: Failure },
}

/// What a call answered.
#[derive(Debug, PartialEq, Eq)]
pub enum SetupEvent<L> {
    /// Whether the swap chain gave its device.
    DeviceGot { given: bool },
    /// Whether the device gave its immediate context.
    ContextGot { given: bool },
    /// The window of the swap chain, if it described itself.
    Described { window: Option<isize> },
    /// The engine has been created.
    EngineBuilt,
    /// The render loop.
    RenderLoopFetched { render_loop: L },
    /// The procedure that the window had before.
    WindowTaken { previous: isize },
    /// There is no file for settings.
    IniForgotten,
    /// Whether the window has the focus.
    FocusAsked { focused: bool },
    /// The input has been set up.
    IoReady,
}

impl<S, L> RendererSetup<S, L> {
    /// The call to make.
    pub open spec fn request(self) -> SetupAction {
        match self {
            RendererSetup::GettingDevice { swap_chain } => SetupAction::GetDevice,
            RendererSetup::GettingContext { swap_chain } => SetupAction::GetContext,
            RendererSetup::Describing { swap_chain } => SetupAction::Describe,
            RendererSetup::BuildingEngine { swap_chain, window } => SetupAction::BuildEngine,
            RendererSetup::TakingLoop { swap_chain, window } => SetupAction::TakeRenderLoop,
            RendererSetup::FetchingLoop { swap_chain, window, id } =>
                SetupAction::FetchRenderLoop { id },
            RendererSetup::TakingWindow { swap_chain, window, render_loop } =>
                SetupAction::TakeWindow { window, index: GWLP_WNDPROC },
            RendererSetup::ForgettingIni { swap_chain, window, render_loop, wnd_proc } =>
                SetupAction::ForgetIni,
            RendererSetup::AskingFocus { swap_chain, window, render_loop, wnd_proc } =>
                SetupAction::AskFocus { window },
            RendererSetup::InitialisingIo { renderer } => SetupAction::InitIo,
            RendererSetup::Ready { renderer } => SetupAction::Stop,
            RendererSetup::Failed { failure } => SetupAction::Fail { failure },
        }
    }

    /// The setup after an answer. An answer to a call that it does not wait for changes
    /// nothing.
    pub open spec fn after(self, event: SetupEvent<L>) -> RendererSetup<S, L> {
        match (self, event) {
            (RendererSetup::GettingDevice { swap_chain }, SetupEvent::DeviceGot { given }) =>
                if given {
                    RendererSetup::GettingContext { swap_chain }
                } else {
                    RendererSetup::Failed { failure: Failure::GetDevice }
                },
            (RendererSetup::GettingContext { swap_chain }, SetupEvent::ContextGot { given }) =>
                if given {
                    RendererSetup::Describing { swap_chain }
                } else {
                    RendererSetup::Failed { failure: Failure::NoContext }
                },
            (RendererSetup::Describing { swap_chain }, SetupEvent::Described { window }) =>
                match window {
                    Some(window) => RendererSetup::BuildingEngine { swap_chain, window },
                    None => RendererSetup::Failed { failure: Failure::GetDesc },
                },
            (RendererSetup::BuildingEngine { swap_chain, window }, SetupEvent::EngineBuilt) =>
                RendererSetup::TakingLoop { swap_chain, window },
            (
                RendererSetup::FetchingLoop { swap_chain, window, id },
                SetupEvent::RenderLoopFetched { render_loop },
            ) => RendererSetup::TakingWindow { swap_chain, window, render_loop },
            (
                RendererSetup::TakingWindow { swap_chain, window, render_loop },
                SetupEvent::WindowTaken { previous },
            ) => RendererSetup::ForgettingIni {
                swap_chain,
                window,
                render_loop,
                wnd_proc: previous,
            },
            (
                RendererSetup::ForgettingIni { swap_chain, window, render_loop, wnd_proc },
                SetupEvent::IniForgotten,
            ) => RendererSetup::AskingFocus { swap_chain, window, render_loop, wnd_proc },
            (
                RendererSetup::AskingFocus { swap_chain, window, render_loop, wnd_proc },
                SetupEvent::FocusAsked { focused },
            ) => RendererSetup::InitialisingIo {
                renderer: ImguiRenderer {
                    render_loop,
                    wnd_proc,
                    flags: ImguiRenderLoopFlags { focused },
                    swap_chain,
                },
            },
            (RendererSetup::InitialisingIo { renderer }, SetupEvent::IoReady) =>
                RendererSetup::Ready { renderer },
            _ => self,
        }
    }

    /// The setup after it has taken what it waits for from the slots.
    pub open spec fn taken_from(self, slots: SlotsView) -> RendererSetup<S, L> {
        match self {
            RendererSetup::TakingLoop { swap_chain, window } => match slots.render_loop {
                Some(id) => RendererSetup::FetchingLoop { swap_chain, window, id },
                None => RendererSetup::Failed { failure: Failure::NoRenderLoop },
            },
            _ => self,
        }
    }

    /// What it then leaves in the slots.
    pub open spec fn left_in(self, slots: SlotsView) -> SlotsView {
        if self is TakingLoop {
            slots.without_render_loop()
        } else {
            slots
        }
    }

    /// How many calls are left, at most.
    pub open spec fn calls_left(self) -> nat {
        match self {
            RendererSetup::GettingDevice { .. } => 10,
            RendererSetup::GettingContext { .. } => 9,
            RendererSetup::Describing { .. } => 8,
            RendererSetup::BuildingEngine { .. } => 7,
            RendererSetup::TakingLoop { .. } => 6,
            RendererSetup::FetchingLoop { .. } => 5,
            RendererSetup::TakingWindow { .. } => 4,
            RendererSetup::ForgettingIni { .. } => 3,
            RendererSetup::AskingFocus { .. } => 2,
            RendererSetup::InitialisingIo { .. } => 1,
            RendererSetup::Ready { .. } => 0,
            RendererSetup::Failed { .. } => 0,
        }
    }

    /// The call to make next.
    pub fn next(&self) -> (action: SetupAction)
        ensures
            action == self.request(),
    {
        match self {
            RendererSetup::GettingDevice { .. } => SetupAction::GetDevice,
            RendererSetup::GettingContext { .. } => SetupAction::GetContext,
            RendererSetup::Describing { .. } => SetupAction::Describe,
            RendererSetup::BuildingEngine { .. } => SetupAction::BuildEngine,
            RendererSetup::TakingLoop { .. } => SetupAction::TakeRenderLoop,
            RendererSetup::FetchingLoop { id, .. } => SetupAction::FetchRenderLoop { id: *id },
            RendererSetup::TakingWindow { window, .. } => SetupAction::TakeWindow {
                window: *window,
                index: GWLP_WNDPROC,
            },
            RendererSetup::ForgettingIni { .. } => SetupAction::ForgetIni,
            RendererSetup::AskingFocus { window, .. } => SetupAction::AskFocus { window: *window },
            RendererSetup::InitialisingIo { .. } => SetupAction::InitIo,
            RendererSetup::Ready { .. } => SetupAction::Stop,
            RendererSetup::Failed { failure } => SetupAction::Fail { failure: *failure },
        }
    }

    /// Takes in what the last call answered.
    pub fn advance(self, event: SetupEvent<L>) -> (setup: RendererSetup<S, L>)
        ensures
            setup == self.after(event),
    {
        match (self, event) {
            (RendererSetup::GettingDevice { swap_chain }, SetupEvent::DeviceGot { given }) => {
                if given {
                    RendererSetup::GettingContext { swap_chain }
                } else {
                    RendererSetup::Failed { failure: Failure::GetDevice }
                }
            },
            (RendererSetup::GettingContext { swap_chain }, SetupEvent::ContextGot { given }) => {
                if given {
                    RendererSetup::Describing { swap_chain }
                } else {
                    RendererSetup::Failed { failure: Failure::NoContext }
                }
            },
            (RendererSetup::Describing { swap_chain }, SetupEvent::Described { window }) => {
                match window {
                    Some(window) => RendererSetup::BuildingEngine { swap_chain, window },
                    None => RendererSetup::Failed { failure: Failure::GetDesc },
                }
            },
            (RendererSetup::BuildingEngine { swap_chain, window }, SetupEvent::EngineBuilt) =>
                RendererSetup::TakingLoop { swap_chain, window },
            (
                RendererSetup::FetchingLoop { swap_chain, window, .. },
                SetupEvent::RenderLoopFetched { render_loop },
            ) => RendererSetup::TakingWindow { swap_chain, window, render_loop },
            (
                RendererSetup::TakingWindow { swap_chain, window, render_loop },
                SetupEvent::WindowTaken { previous },
            ) => RendererSetup::ForgettingIni {
                swap_chain,
                window,
                render_loop,
                wnd_proc: previous,
            },
            (
                RendererSetup::ForgettingIni { swap_chain, window, render_loop, wnd_proc },
                SetupEvent::IniForgotten,
            ) => RendererSetup::AskingFocus { swap_chain, window, render_loop, wnd_proc },
            (
                RendererSetup::AskingFocus { swap_chain, render_loop, wnd_proc, .. },
                SetupEvent::FocusAsked { focused },
            ) => {
                let flags = ImguiRenderLoopFlags { focused };
                let renderer = ImguiRenderer { render_loop, wnd_proc, flags, swap_chain };
                RendererSetup::InitialisingIo { renderer }
            },
            (RendererSetup::InitialisingIo { renderer }, SetupEvent::IoReady) =>
                RendererSetup::Ready { renderer },
            (unmoved, _) => unmoved,
        }
    }

    /// Takes the render loop from the slots, if that is what it waits for. Without one
    /// the setup fails.
    pub fn take_from(self, slots: &mut HookSlots) -> (setup: RendererSetup<S, L>)
        ensures
            setup == self.taken_from(old(slots)@),
            final(slots)@ == self.left_in(old(slots)@),
    {
        match self {
            RendererSetup::TakingLoop { swap_chain, window } => {
                match slots.take_render_loop() {
                    Some(id) => RendererSetup::FetchingLoop { swap_chain, window, id },
                    None => RendererSetup::Failed { failure: Failure::NoRenderLoop },
                }
            },
            unmoved => unmoved,
        }
    }

    /// The renderer, once it is ready.
    pub fn into_renderer(self) -> (renderer: Option<ImguiRenderer<S, L>>)
        ensures
            renderer == (match self {
                RendererSetup::Ready { renderer } => Some(renderer),
                _ => None,
            }),
    {
        match self {
            RendererSetup::Ready { renderer } => Some(renderer),
            _ => None,
        }
    }
}

/// A cleanup, by the call it waits for.
#[derive(Clone, Copy, Debug, PartialEq, Eq)]
pub enum Cleanup {
    /// The window is to be learnt from the swap chain.
    Describing { wnd_proc: isize },
    /// The window is to be given back its procedure.
    Restoring { wnd_proc: isize, window: isize },
    /// The window has its procedure.
    Finished,
    /// The window could not be learnt.
    Failed { failure: Failure },
}

/// The call that a cleanup waits for.
#[derive(Clone, Copy, Debug, PartialEq, Eq)]
pub enum CleanupAction {
    /// Ask the swap chain for its description.
    Describe,
    /// Set the value `index` of the window to `wnd_proc`.
    GiveWindow { window: isize, index: i32, wnd_proc: isize },
    /// Nothing: the cleanup is over.
    Stop,
    /// Nothing: the cleanup has failed.
    Fail { failure: Failure },
}

/// What a call answered.
#[derive(Clone, Copy, Debug, PartialEq, Eq)]
pub enum CleanupEvent {
    /// The window of the swap chain, if it described itself.
    Described { window: Option<isize> },
    /// The window has been given its procedure.
    WindowGiven,
}

impl Cleanup {
    /// The call to make.
    pub open spec fn request(self) -> CleanupAction {
        match self {
            Cleanup::Describing { wnd_proc } => CleanupAction::Describe,
            Cleanup::Restoring { wnd_proc, window } => CleanupAction::GiveWindow {
                window,
                index: GWLP_WNDPROC,
                wnd_proc,
            },
            Cleanup::Finished => CleanupAction::Stop,
            Cleanup::Failed { failure } => CleanupAction::Fail { failure },
        }
    }

    /// The cleanup after an answer. An answer to a call that it does not wait for
    /// changes nothing.
    pub open spec fn after(self, event: CleanupEvent) -> Cleanup {
        match (self, event) {
            (Cleanup::Describing { wnd_proc }, CleanupEvent::Described { window }) =>
                match window {
                    Some(window) => Cleanup::Restoring { wnd_proc, window },
                    None => Cleanup::Failed { failure: Failure::CleanupGetDesc },
                },
            (Cleanup::Restoring { wnd_proc, window }, CleanupEvent::WindowGiven) =>
                Cleanup::Finished,
            _ => self,
        }
    }

    /// How many calls are left, at most.
    pub open spec fn calls_left(self) -> nat {
        match self {
            Cleanup::Describing { .. } => 2,
            Cleanup::Restoring { .. } => 1,
            Cleanup::Finished => 0,
            Cleanup::Failed { .. } => 0,
        }
    }

    /// The call to make next.
    pub fn next(&self) -> (action: CleanupAction)
        ensures
            action == self.request(),
    {
        match *self {
            Cleanup::Describing { .. } => CleanupAction::Describe,
            Cleanup::Restoring { wnd_proc, window } => CleanupAction::GiveWindow {
                window,
                index: GWLP_WNDPROC,
                wnd_proc,
            },
            Cleanup::Finished => CleanupAction::Stop,
            Cleanup::Failed { failure } => CleanupAction::Fail { failure },
        }
    }

    /// Takes in what the last call answered.
    pub fn advance(self, event: CleanupEvent) -> (cleanup: Cleanup)
        ensures
            cleanup == self.after(event),
    {
        match (self, event) {
            (Cleanup::Describing { wnd_proc }, CleanupEvent::Described { window }) => {
                match window {
                    Some(window) => Cleanup::Restoring { wnd_proc, window },
                    None => Cleanup::Failed { failure: Failure::CleanupGetDesc },
                }
            },
            (Cleanup::Restoring { .. }, CleanupEvent::WindowGiven) => Cleanup::Finished,
            _ => self,
        }
    }
}

/// A setup that nothing fails makes these calls in this order, and ends in a renderer
/// of the swap chain that it was for, with the render loop that the slots held, told
/// whether the window has the focus. The slots lose the render loop and nothing else.
pub proof fn law_setup_makes_a_renderer<S, L>(
    slots: SlotsView,
    swap_chain: S,
    window: isize,
    render_loop: L,
    previous: isize,
    focused: bool,
)
    requires
        slots.render_loop is Some,
    ensures
        ({
            let device = (RendererSetup::<S, L>::GettingDevice { swap_chain });
            let context = device.after(SetupEvent::DeviceGot { given: true });
            let describing = context.after(SetupEvent::ContextGot { given: true });
            let engine = describing.after(SetupEvent::Described { window: Some(window) });
            let taking = engine.after(SetupEvent::EngineBuilt);
            let fetching = taking.taken_from(slots);
            let hooking = fetching.after(SetupEvent::RenderLoopFetched { render_loop });
            let forgetting = hooking.after(SetupEvent::WindowTaken { previous });
            let asking = forgetting.after(SetupEvent::IniForgotten);
            let io = asking.after(SetupEvent::FocusAsked { focused });
            let ready = io.after(SetupEvent::IoReady);
            &&& device.request() is GetDevice
            &&& context.request() is GetContext
            &&& describing.request() is Describe
            &&& engine.request() is BuildEngine
            &&& taking.request() is TakeRenderLoop
            &&& taking.left_in(slots) == slots.without_render_loop()
            &&& fetching.request() == (SetupAction::FetchRenderLoop { id: slots.render_loop->0 })
            &&& hooking.request() == (SetupAction::TakeWindow { window, index: GWLP_WNDPROC })
            &&& forgetting.request() is ForgetIni
            &&& asking.request() == (SetupAction::AskFocus { window })
            &&& io.request() is InitIo
            &&& ready.request() is Stop
            &&& ready == (RendererSetup::Ready {
                renderer: ImguiRenderer {
                    render_loop,
                    wnd_proc: previous,
                    flags: ImguiRenderLoopFlags { focused },
                    swap_chain,
                },
            })
        }),
{
}

/// A window is taken over only once a render loop has been fetched for it, and one is
/// fetched only where the slots held it; without one the setup fails for good.
pub proof fn law_window_is_left_alone_without_a_render_loop<S, L>(
    setup: RendererSetup<S, L>,
    slots: SlotsView,
    event: SetupEvent<L>,
)
    ensures
        setup.request() !is TakeWindow && setup.after(event).request() is TakeWindow ==> {
            &&& setup.request() is FetchRenderLoop
            &&& event is RenderLoopFetched
        },
        setup.request() !is FetchRenderLoop ==> setup.after(event).request() !is FetchRenderLoop,
        setup.request() is TakeRenderLoop ==> setup.taken_from(slots).request() == (
        match slots.render_loop {
            Some(id) => SetupAction::FetchRenderLoop { id },
            None => SetupAction::Fail { failure: Failure::NoRenderLoop },
        }),
        setup.request() !is TakeRenderLoop ==> setup.taken_from(slots) == setup
            && setup.left_in(slots) == slots,
        setup is Failed ==> setup.after(event) == setup,
{
}

/// An answer, or what the slots give, brings the end of a setup nearer or, where
/// something else was waited for, changes nothing.
pub proof fn law_answers_bring_the_renderer_nearer<S, L>(
    setup: RendererSetup<S, L>,
    slots: SlotsView,
    event: SetupEvent<L>,
)
    ensures
        setup.after(event) == setup || setup.after(event).calls_left() < setup.calls_left(),
        setup.taken_from(slots) == setup || setup.taken_from(slots).calls_left()
            < setup.calls_left(),
        setup.calls_left() == 0 <==> setup.request() is Stop || setup.request() is Fail,
{
}

/// An answer brings the end of a cleanup nearer or, where another call was waited for,
/// changes nothing; one that fails stays so.
pub proof fn law_answers_bring_the_cleanup_nearer(cleanup: Cleanup, event: CleanupEvent)
    ensures
        cleanup.after(event) == cleanup || cleanup.after(event).calls_left()
            < cleanup.calls_left(),
        cleanup.calls_left() == 0 <==> cleanup.request() is Stop || cleanup.request() is Fail,
{
}

/// What can happen to a renderer between its setup and its cleanup.
pub enum RendererChange<S, L> {
    /// A frame was started on the swap chain that it was handed, if any.
    Rendered { swap_chain: Option<S> },
    /// The user interface was built, which left the render loop like this.
    Drawn { render_loop: L },
    /// The window gained or lost the focus.
    FocusSet { focus: bool },
}

impl<S, L> ImguiRenderer<S, L> {
    /// The renderer after some changes.
    pub open spec fn changed(self, changes: Seq<RendererChange<S, L>>) -> ImguiRenderer<S, L>
        decreases changes.len(),
    {
        if changes.len() == 0 {
            self
        } else {
            let before = self.changed(changes.drop_last());
            match changes.last() {
                RendererChange::Rendered { swap_chain } => before.with_swap_chain(swap_chain),
                RendererChange::Drawn { render_loop } => ImguiRenderer { render_loop, ..before },
                RendererChange::FocusSet { focus } => ImguiRenderer {
                    flags: ImguiRenderLoopFlags { focused: focus },
                    ..before
                },
            }
        }
    }
}

/// No change touches the window procedure that a renderer is to give back.
pub proof fn law_renderer_keeps_the_window_procedure<S, L>(
    renderer: ImguiRenderer<S, L>,
    changes: Seq<RendererChange<S, L>>,
)
    ensures
        renderer.changed(changes).wnd_proc == renderer.wnd_proc,
    decreases changes.len(),
{
    if changes.len() > 0 {
        law_renderer_keeps_the_window_procedure(renderer, changes.drop_last());
    }
}

/// The focus that a renderer tells of is the one set last; where none has been set, it
/// is the one from its setup.
pub proof fn law_focus_is_the_one_set_last<S, L>(
    renderer: ImguiRenderer<S, L>,
    changes: Seq<RendererChange<S, L>>,
)
    ensures
        (forall|i: int| 0 <= i < changes.len() ==> (#[trigger] changes[i]) !is FocusSet)
            ==> renderer.changed(changes).flags == renderer.flags,
        forall|i: int|
            0 <= i < changes.len() && (#[trigger] changes[i]) is FocusSet && (forall|j: int|
                i < j < changes.len() ==> (#[trigger] changes[j]) !is FocusSet)
                ==> renderer.changed(changes).flags.focused == changes[i]->focus,
    decreases changes.len(),
{
    if changes.len() > 0 {
        let rest = changes.drop_last();
        law_focus_is_the_one_set_last(renderer, rest);
        assert(forall|i: int| 0 <= i < rest.len() ==> #[trigger] rest[i] == changes[i]);
        assert forall|i: int|
            0 <= i < changes.len() && (#[trigger] changes[i]) is FocusSet && (forall|j: int|
                i < j < changes.len() ==> (#[trigger] changes[j]) !is FocusSet) implies
            renderer.changed(changes).flags.focused == changes[i]->focus by {
            if i < rest.len() {
                assert(rest[i] is FocusSet);
                assert(changes[changes.len() - 1] !is FocusSet);
            }
        }
    }
}

/// The window procedure that a setup took over is what the cleanup of its renderer
/// gives to the window that the swap chain then names, whatever came in between.
pub proof fn law_cleanup_gives_back_what_setup_took<S, L>(
    swap_chain: S,
    window: isize,
    render_loop: L,
    previous: isize,
    focused: bool,
    changes: Seq<RendererChange<S, L>>,
    last_window: isize,
)
    ensures
        ({
            let taking = (RendererSetup::TakingWindow { swap_chain, window, render_loop });
            let ready = taking.after(SetupEvent::WindowTaken { previous }).after(
                SetupEvent::IniForgotten,
            ).after(SetupEvent::FocusAsked { focused }).after(SetupEvent::IoReady);
            let renderer = ready->Ready_renderer.changed(changes);
            let describing = (Cleanup::Describing { wnd_proc: renderer.wnd_proc });
            let restoring = describing.after(
                CleanupEvent::Described { window: Some(last_window) },
            );
            let finished = restoring.after(CleanupEvent::WindowGiven);
            &&& ready is Ready
            &&& describing.request() is Describe
            &&& restoring.request() == (CleanupAction::GiveWindow {
                window: last_window,
                index: GWLP_WNDPROC,
                wnd_proc: previous,
            })
            &&& finished.request() is Stop
        }),
{
    let taking = RendererSetup::TakingWindow { swap_chain, window, render_loop };
    let ready = taking.after(SetupEvent::WindowTaken { previous }).after(
        SetupEvent::IniForgotten,
    ).after(SetupEvent::FocusAsked { focused }).after(SetupEvent::IoReady);
    law_renderer_keeps_the_window_procedure(ready->Ready_renderer, changes);
}

/// A swap chain that is handed over is the one that is kept, whichever it is and whatever
/// the renderer holds; where none is handed over, nothing changes.
pub proof fn law_swap_chain_handed_over_is_kept<S, L>(renderer: ImguiRenderer<S, L>, handed: S)
    ensures
        renderer.with_swap_chain(Some(handed)).swap_chain == handed,
        renderer.with_swap_chain(Some(handed)).render_loop == renderer.render_loop,
        renderer.with_swap_chain(Some(handed)).wnd_proc == renderer.wnd_proc,
        renderer.with_swap_chain(Some(handed)).flags == renderer.flags,
        renderer.with_swap_chain(None) == renderer,
{
}

impl<S, L> RendererChange<S, L> {
    /// A swap chain was handed over.
    pub open spec fn hands_over(self) -> bool {
        self is Rendered && self->swap_chain is Some
    }
}

/// A renderer draws to the swap chain handed over last; where none has been, to the one
/// from its setup.
pub proof fn law_swap_chain_is_the_one_handed_over_last<S, L>(
    renderer: ImguiRenderer<S, L>,
    changes: Seq<RendererChange<S, L>>,
)
    ensures
        (forall|i: int| 0 <= i < changes.len() ==> !(#[trigger] changes[i]).hands_over())
            ==> renderer.changed(changes).swap_chain == renderer.swap_chain,
        forall|i: int|
            0 <= i < changes.len() && (#[trigger] changes[i]).hands_over() && (forall|j: int|
                i < j < changes.len() ==> !(#[trigger] changes[j]).hands_over())
                ==> Some(renderer.changed(changes).swap_chain) == changes[i]->swap_chain,
    decreases changes.len(),
{
    if changes.len() > 0 {
        let rest = changes.drop_last();
        law_swap_chain_is_the_one_handed_over_last(renderer, rest);
        assert(forall|i: int| 0 <= i < rest.len() ==> #[trigger] rest[i] == changes[i]);
        assert forall|i: int|
            0 <= i < changes.len() && (#[trigger] changes[i]).hands_over() && (forall|j: int|
                i < j < changes.len() ==> !(#[trigger] changes[j]).hands_over()) implies Some(
            renderer.changed(changes).swap_chain,
        ) == changes[i]->swap_chain by {
            if i < rest.len() {
                assert(rest[i].hands_over());
                assert(!changes[changes.len() - 1].hands_over());
            }
        }
    }
}

/// A setup ends early where there is no device, no context, no description or no render
/// loop, and stays so.
pub proof fn law_setup_fails_where_something_is_missing<S, L>(
    swap_chain: S,
    window: isize,
    slots: SlotsView,
    event: SetupEvent<L>,
)
    requires
        slots.render_loop is None,
    ensures
        ({
            let device = (RendererSetup::<S, L>::GettingDevice { swap_chain });
            let context = (RendererSetup::<S, L>::GettingContext { swap_chain });
            let describing = (RendererSetup::<S, L>::Describing { swap_chain });
            let taking = (RendererSetup::<S, L>::TakingLoop { swap_chain, window });
            let no_device = device.after(SetupEvent::DeviceGot { given: false });
            let no_context = context.after(SetupEvent::ContextGot { given: false });
            let no_window = describing.after(SetupEvent::Described { window: None });
            let no_loop = taking.taken_from(slots);
            &&& no_device.request() == (SetupAction::Fail { failure: Failure::GetDevice })
            &&& no_context.request() == (SetupAction::Fail { failure: Failure::NoContext })
            &&& no_window.request() == (SetupAction::Fail { failure: Failure::GetDesc })
            &&& no_loop.request() == (SetupAction::Fail { failure: Failure::NoRenderLoop })
            &&& taking.left_in(slots) == slots
            &&& no_device.after(event) == no_device
            &&& no_context.after(event) == no_context
            &&& no_window.after(event) == no_window
            &&& no_loop.after(event) == no_loop
        }),
{
}

/// A setup takes nothing from the slots but the render loop.
pub proof fn law_setup_takes_only_the_render_loop<S, L>(
    setup: RendererSetup<S, L>,
    slots: SlotsView,
)
    ensures
        setup.left_in(slots).trampoline == slots.trampoline,
        setup.left_in(slots).renderer == slots.renderer,
        setup.request() is TakeRenderLoop ==> setup.left_in(slots).render_loop is None,
        setup.request() !is TakeRenderLoop ==> setup.left_in(slots).render_loop
            == slots.render_loop,
{
}

/// Only an answer to the call that a setup waits for moves it.
pub proof fn law_unasked_answers_leave_a_setup<S, L>(
    setup: RendererSetup<S, L>,
    event: SetupEvent<L>,
)
    ensures
        setup.after(event) != setup ==> {
            ||| setup.request() is GetDevice && event is DeviceGot
            ||| setup.request() is GetContext && event is ContextGot
            ||| setup.request() is Describe && event is Described
            ||| setup.request() is BuildEngine && event is EngineBuilt
            ||| setup.request() is FetchRenderLoop && event is RenderLoopFetched
            ||| setup.request() is TakeWindow && event is WindowTaken
            ||| setup.request() is ForgetIni && event is IniForgotten
            ||| setup.request() is AskFocus && event is FocusAsked
            ||| setup.request() is InitIo && event is IoReady
        },
{
}

/// A cleanup asks for the window and gives it the procedure that it was started with, or
/// fails where the window is not told; only an answer to its call moves it.
pub proof fn law_cleanup_gives_the_procedure_or_fails(
    wnd_proc: isize,
    window: isize,
    cleanup: Cleanup,
    event: CleanupEvent,
)
    ensures
        ({
            let describing = (Cleanup::Describing { wnd_proc });
            let restoring = describing.after(CleanupEvent::Described { window: Some(window) });
            let finished = restoring.after(CleanupEvent::WindowGiven);
            let failed = describing.after(CleanupEvent::Described { window: None });
            &&& describing.request() is Describe
            &&& restoring.request() == (CleanupAction::GiveWindow {
                window,
                index: GWLP_WNDPROC,
                wnd_proc,
            })
            &&& GWLP_WNDPROC == -4
            &&& finished.request() is Stop
            &&& failed.request() == (CleanupAction::Fail { failure: Failure::CleanupGetDesc })
        }),
        cleanup.after(event) != cleanup ==> {
            ||| cleanup.request() is Describe && event is Described
            ||| cleanup.request() is GiveWindow && event is WindowGiven
        },
{
}

} // verus!
