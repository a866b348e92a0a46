//! The hook on the function that presents frames.
use crate::creation::HookCreation;
use crate::failure::Failure;
use crate::present::get_present_addr;
use crate::renderer::{RendererSetup, SetupAction};
use crate::slots::{HookSlots, SlotsView};
use vstd::prelude::*;

verus! {

/// The hook, by means of a detour `D`.
#[derive(Debug, PartialEq, Eq)]
pub struct ImguiDX11Hooks<D> {
    /// The detour of the function that presents frames.
    pub hook_present: D,
}

impl<D> ImguiDX11Hooks<D> {
    /// Starts to create a hook that will render UI via the provided render loop.
    pub fn new(render_loop: usize) -> (creation: HookCreation<D>)
        ensures
            creation == HookCreation::<D>::started(render_loop),
    {
        HookCreation::LookingUp { render_loop, probe: get_present_addr() }
    }

    /// Starts to switch the hook on.
    pub fn hook(&self) -> (hooking: Hooking<'_, D>)
        ensures
            hooking == (Hooking::Enabling { detour: &self.hook_present }),
    {
        Hooking::Enabling { detour: &self.hook_present }
    }

    /// Starts to switch the hook off and to take down what it set up.
    pub fn unhook(&mut self) -> (unhooking: Unhooking<'_, D>)
        ensures
            unhooking == (Unhooking::Disabling { detour: &old(self).hook_present }),
            *final(self) == *old(self),
    {
        Unhooking::Disabling { detour: &self.hook_present }
    }
}

/// A hook being switched on, by the call it waits for.
#[derive(Debug, PartialEq, Eq)]
pub enum Hooking<'a, D> {
    /// The detour is to be enabled.
    Enabling { detour: &'a D },
    /// Nothing is left to do.
    Finished,
}

/// The call that this waits for.
#[derive(Debug, PartialEq, Eq)]
pub enum HookingAction<'a, D> {
    /// Enable the detour.
    Enable { detour: &'a D },
    /// Nothing more.
    Stop,
}

/// What a call answered.
#[derive(Clone, Copy, Debug, PartialEq, Eq, Structural)]
pub enum HookingEvent {
    /// Whether the detour has been enabled.
    Enabled { success: bool },
}

impl<'a, D> Hooking<'a, D> {
    /// The call to make.
    pub open spec fn request(self) -> HookingAction<'a, D> {
        match self {
            Hooking::Enabling { detour } => HookingAction::Enable { detour },
            Hooking::Finished => HookingAction::Stop,
        }
    }

    /// The hook after an answer. One that cannot be enabled is not tried again.
    pub open spec fn after(self, event: HookingEvent) -> Hooking<'a, D> {
        match (self, event) {
            (Hooking::Enabling { detour }, HookingEvent::Enabled { success }) => Hooking::Finished,
            (Hooking::Finished, HookingEvent::Enabled { success }) => Hooking::Finished,
        }
    }

    /// The call to make next.
    pub fn next(&self) -> (action: HookingAction<'a, D>)
        ensures
            action == self.request(),
    {
        match self {
            Hooking::Enabling { detour } => HookingAction::Enable { detour: *detour },
            Hooking::Finished => HookingAction::Stop,
        }
    }

    /// Takes in what the last call answered.
    pub fn advance(self, event: HookingEvent) -> (hooking: Hooking<'a, D>)
        ensures
            hooking == self.after(event),
    {
        match event {
            HookingEvent::Enabled { .. } => Hooking::Finished,
        }
    }
}

/// A hook being switched off, by the call it waits for.
#[derive(Debug, PartialEq, Eq)]
pub enum Unhooking<'a, D> {
    /// The detour is to be disabled.
    Disabling { detour: &'a D },
    /// The renderer is to be taken, if there is one.
    TakingRenderer,
    /// It is to give back the window procedure.
    CleaningUp { renderer: usize },
    /// The render loop is to be taken, if one is left.
    TakingLoop,
    /// It is to be dropped.
    DroppingLoop { render_loop: usize },
    /// Nothing is left to do.
    Finished,
    /// The window procedure could not be given back.
    Failed { failure: Failure },
}

/// The call that this waits for.
#[derive(Debug, PartialEq, Eq)]
pub enum UnhookingAction<'a, D> {
    /// Disable the detour.
    Disable { detour: &'a D },
    /// Take the renderer from the slots, with `take_from`.
    TakeRenderer,
    /// Lock the renderer and clean it up, on the swap chain that it has.
    CleanUp { renderer: usize },
    /// Take the render loop from the slots, with `take_from`.
    TakeRenderLoop,
    /// Drop the render loop.
    DropRenderLoop { render_loop: usize },
    /// Nothing more.
    Stop,
    /// Nothing: the hook could not be taken down.
    Fail { failure: Failure },
}

/// What a call answered.
#[derive(Clone, Copy, Debug, PartialEq, Eq, Structural)]
pub enum UnhookingEvent {
    /// Whether the detour has been disabled.
    Disabled { success: bool },
    /// The renderer has been cleaned up.
    CleanedUp,
    /// The renderer could not be cleaned up.
    CleanUpFailed { failure: Failure },
    /// The render loop has been dropped.
    RenderLoopDropped,
}

impl<'a, D> Unhooking<'a, D> {
    /// The call to make.
    pub open spec fn request(self) -> UnhookingAction<'a, D> {
        match self {
            Unhooking::Disabling { detour } => UnhookingAction::Disable { detour },
            Unhooking::TakingRenderer => UnhookingAction::TakeRenderer,
            Unhooking::CleaningUp { renderer } => UnhookingAction::CleanUp { renderer },
            Unhooking::TakingLoop => UnhookingAction::TakeRenderLoop,
            Unhooking::DroppingLoop { render_loop } => UnhookingAction::DropRenderLoop {
                render_loop,
            },
            Unhooking::Finished => UnhookingAction::Stop,
            Unhooking::Failed { failure } => UnhookingAction::Fail { failure },
        }
    }

    /// The hook after an answer. An answer to a call that it does not wait for changes
    /// nothing.
    pub open spec fn after(self, event: UnhookingEvent) -> Unhooking<'a, D> {
        match (self, event) {
            (Unhooking::Disabling { detour }, UnhookingEvent::Disabled { success }) =>
                Unhooking::TakingRenderer,
            (Unhooking::CleaningUp { renderer }, UnhookingEvent::CleanedUp) =>
                Unhooking::TakingLoop,
            (Unhooking::CleaningUp { renderer }, UnhookingEvent::CleanUpFailed { failure }) =>
                Unhooking::Failed { failure },
            (Unhooking::DroppingLoop { render_loop }, UnhookingEvent::RenderLoopDropped) =>
                Unhooking::Finished,
            _ => self,
        }
    }

    /// The hook after it has taken what it waits for from the slots.
    pub open spec fn taken_from(self, slots: SlotsView) -> Unhooking<'a, D> {
        match self {
            Unhooking::TakingRenderer => match slots.renderer {
                Some(renderer) => Unhooking::CleaningUp { renderer },
                None => Unhooking::TakingLoop,
            },
            Unhooking::TakingLoop => match slots.render_loop {
                Some(render_loop) => Unhooking::DroppingLoop { render_loop },
                None => Unhooking::Finished,
            },
            _ => self,
        }
    }

    /// What it then leaves in the slots.
    pub open spec fn left_in(self, slots: SlotsView) -> SlotsView {
        match self {
            Unhooking::TakingRenderer => slots.without_renderer(),
            Unhooking::TakingLoop => slots.without_render_loop(),
            _ => slots,
        }
    }

    /// How many calls are left, at most.
    pub open spec fn calls_left(self) -> nat {
        match self {
            Unhooking::Disabling { .. } => 5,
            Unhooking::TakingRenderer => 4,
            Unhooking::CleaningUp { .. } => 3,
            Unhooking::TakingLoop => 2,
            Unhooking::DroppingLoop { .. } => 1,
            Unhooking::Finished => 0,
            Unhooking::Failed { .. } => 0,
        }
    }

    /// The call to make next.
    pub fn next(&self) -> (action: UnhookingAction<'a, D>)
        ensures
            action == self.request(),
    {
        match self {
            Unhooking::Disabling { detour } => UnhookingAction::Disable { detour: *detour },
            Unhooking::TakingRenderer => UnhookingAction::TakeRenderer,
            Unhooking::CleaningUp { renderer } => UnhookingAction::CleanUp { renderer: *renderer },
            Unhooking::TakingLoop => UnhookingAction::TakeRenderLoop,
            Unhooking::DroppingLoop { render_loop } => UnhookingAction::DropRenderLoop {
                render_loop: *render_loop,
            },
            Unhooking::Finished => UnhookingAction::Stop,
            Unhooking::Failed { failure } => UnhookingAction::Fail { failure: *failure },
        }
    }

    /// Takes in what the last call answered.
    pub fn advance(self, event: UnhookingEvent) -> (unhooking: Unhooking<'a, D>)
        ensures
            unhooking == self.after(event),
    {
        match (self, event) {
            (Unhooking::Disabling { .. }, UnhookingEvent::Disabled { .. }) =>
                Unhooking::TakingRenderer,
            (Unhooking::CleaningUp { .. }, UnhookingEvent::CleanedUp) => Unhooking::TakingLoop,
            (Unhooking::CleaningUp { .. }, UnhookingEvent::CleanUpFailed { failure }) =>
                Unhooking::Failed { failure },
            (Unhooking::DroppingLoop { .. }, UnhookingEvent::RenderLoopDropped) =>
                Unhooking::Finished,
            (unmoved, _) => unmoved,
        }
    }

    /// Takes the renderer or the render loop from the slots, whichever it waits for.
    pub fn take_from(self, slots: &mut HookSlots) -> (unhooking: Unhooking<'a, D>)
        ensures
            unhooking == self.taken_from(old(slots)@),
            final(slots)@ == self.left_in(old(slots)@),
    {
        match self {
            Unhooking::TakingRenderer => {
                match slots.take_renderer() {
                    Some(renderer) => Unhooking::CleaningUp { renderer },
                    None => Unhooking::TakingLoop,
                }
            },
            Unhooking::TakingLoop => {
                match slots.take_render_loop() {
                    Some(render_loop) => Unhooking::DroppingLoop { render_loop },
                    None => Unhooking::Finished,
                }
            },
            unmoved => unmoved,
        }
    }
}

/// What a program hands over when it presents a frame on a swap chain `S`.
#[derive(Clone, Debug, PartialEq, Eq)]
pub struct Presented<S> {
    /// The swap chain that is presented.
    pub swap_chain: S,
    pub sync_interval: u32,
    pub flags: u32,
}

/// A frame being presented, by the call it waits for.
#[derive(Clone, Debug, PartialEq, Eq)]
pub enum PresentCall<S> {
    /// There is no renderer yet: one is to be set up.
    SettingUp { trampoline: usize, presented: Presented<S> },
    /// The renderer that was set up is to be kept for the frames to come.
    Keeping { trampoline: usize, presented: Presented<S>, renderer: usize },
    /// The renderer is to be locked.
    Locking { trampoline: usize, presented: Presented<S>, renderer: usize },
    /// The overlay is to be rendered.
    Rendering { trampoline: usize, presented: Presented<S>, renderer: usize },
    /// The renderer is to be released, after rendering or after what stopped it.
    Releasing {
        trampoline: usize,
        presented: Presented<S>,
        renderer: usize,
        stopped_by: Option<Failure>,
    },
    /// The original function is to be called.
    Forwarding { trampoline: usize, presented: Presented<S> },
    /// The original function has returned.
    Returning { result: i32 },
    /// The frame cannot be presented.
    Failed { failure: Failure },
}

/// The call that a frame waits for.
#[derive(Debug, PartialEq, Eq)]
pub enum PresentAction<'a, S> {
    /// Set up a renderer of the swap chain.
    SetUp { swap_chain: &'a S },
    /// Keep the renderer in the slots for the frames to come, with `keep_in`.
    Keep { renderer: usize },
    /// Lock the renderer.
    LockRenderer { renderer: usize },
    /// Render the overlay on the swap chain.
    Render { renderer: usize, swap_chain: &'a S },
    /// Release the renderer.
    Release { renderer: usize },
    /// Call the original function.
    Forward { trampoline: usize, presented: &'a Presented<S> },
    /// Nothing: this is the result.
    Return { result: i32 },
    /// Nothing: the frame has failed.
    Fail { failure: Failure },
}

/// What a call answered.
#[derive(Clone, Copy, Debug, PartialEq, Eq, Structural)]
pub enum PresentEvent {
    /// The renderer that has been set up.
    RendererReady { renderer: usize },
    /// No renderer could be set up.
    SetUpFailed { failure: Failure },
    /// The renderer has been locked.
    RendererLocked,
    /// The overlay has been rendered.
    Rendered,
    /// The overlay could not be rendered.
    RenderFailed { failure: Failure },
    /// The renderer has been released.
    Released,
    /// The result of the original function.
    Forwarded { result: i32 },
}

/// A frame that starts to be presented.
pub open spec fn present_started<S>(slots: SlotsView, presented: Presented<S>) -> PresentCall<S> {
    match slots.trampoline {
        Some(trampoline) => match slots.renderer {
            Some(renderer) => PresentCall::Locking { trampoline, presented, renderer },
            None => PresentCall::SettingUp { trampoline, presented },
        },
        None => PresentCall::Failed { failure: Failure::TrampolineUninitialized },
    }
}

/// Starts to present a frame.
pub fn imgui_dxgi_swap_chain_present_impl<S>(
    slots: &HookSlots,
    swap_chain: S,
    sync_interval: u32,
    flags: u32,
) -> (call: PresentCall<S>)
    ensures
        call == present_started(slots@, (Presented { swap_chain, sync_interval, flags })),
{
    let presented = Presented { swap_chain, sync_interval, flags };
    match slots.trampoline() {
        Some(trampoline) => match slots.renderer() {
            Some(renderer) => PresentCall::Locking { trampoline, presented, renderer },
            None => PresentCall::SettingUp { trampoline, presented },
        },
        None => PresentCall::Failed { failure: Failure::TrampolineUninitialized },
    }
}

impl<S> PresentCall<S> {
    /// The call to make.
    pub open spec fn request(&self) -> PresentAction<'_, S> {
        match self {
            PresentCall::SettingUp { trampoline, presented } => PresentAction::SetUp {
                swap_chain: &presented.swap_chain,
            },
            PresentCall::Keeping { trampoline, presented, renderer } => PresentAction::Keep {
                renderer: *renderer,
            },
            PresentCall::Locking { trampoline, presented, renderer } =>
                PresentAction::LockRenderer { renderer: *renderer },
            PresentCall::Rendering { trampoline, presented, renderer } => PresentAction::Render {
                renderer: *renderer,
                swap_chain: &presented.swap_chain,
            },
            PresentCall::Releasing { trampoline, presented, renderer, stopped_by } =>
                PresentAction::Release { renderer: *renderer },
            PresentCall::Forwarding { trampoline, presented } => PresentAction::Forward {
                trampoline: *trampoline,
                presented,
            },
            PresentCall::Returning { result } => PresentAction::Return { result: *result },
            PresentCall::Failed { failure } => PresentAction::Fail { failure: *failure },
        }
    }

    /// The frame after an answer. An answer to a call that it does not wait for changes
    /// nothing.
    pub open spec fn after(self, event: PresentEvent) -> PresentCall<S> {
        match (self, event) {
            (
                PresentCall::SettingUp { trampoline, presented },
                PresentEvent::RendererReady { renderer },
            ) => PresentCall::Keeping { trampoline, presented, renderer },
            (
                PresentCall::SettingUp { trampoline, presented },
                PresentEvent::SetUpFailed { failure },
            ) => PresentCall::Failed { failure },
            (
                PresentCall::Locking { trampoline, presented, renderer },
                PresentEvent::RendererLocked,
            ) => PresentCall::Rendering { trampoline, presented, renderer },
            (
                PresentCall::Rendering { trampoline, presented, renderer },
                PresentEvent::Rendered,
            ) => PresentCall::Releasing { trampoline, presented, renderer, stopped_by: None },
            (
                PresentCall::Rendering { trampoline, presented, renderer },
                PresentEvent::RenderFailed { failure },
            ) => PresentCall::Releasing {
                trampoline,
                presented,
                renderer,
                stopped_by: Some(failure),
            },
            (
                PresentCall::Releasing { trampoline, presented, renderer, stopped_by },
                PresentEvent::Released,
            ) => match stopped_by {
                Some(failure) => PresentCall::Failed { failure },
                None => PresentCall::Forwarding { trampoline, presented },
            },
            (
                PresentCall::Forwarding { trampoline, presented },
                PresentEvent::Forwarded { result },
            ) => PresentCall::Returning { result },
            _ => self,
        }
    }

    /// The frame after it has kept its renderer in the slots. Where one is kept already,
    /// it goes on with that one.
    pub open spec fn kept_in(self, slots: SlotsView) -> PresentCall<S> {
        match self {
            PresentCall::Keeping { trampoline, presented, renderer } => PresentCall::Locking {
                trampoline,
                presented,
                renderer: slots.with_renderer(renderer).renderer->0,
            },
            _ => self,
        }
    }

    /// What it then leaves in the slots.
    pub open spec fn left_in(self, slots: SlotsView) -> SlotsView {
        match self {
            PresentCall::Keeping { trampoline, presented, renderer } => slots.with_renderer(
                renderer,
            ),
            _ => slots,
        }
    }

    /// How many calls are left, at most.
    pub open spec fn calls_left(self) -> nat {
        match self {
            PresentCall::SettingUp { trampoline, presented } => 6,
            PresentCall::Keeping { trampoline, presented, renderer } => 5,
            PresentCall::Locking { trampoline, presented, renderer } => 4,
            PresentCall::Rendering { trampoline, presented, renderer } => 3,
            PresentCall::Releasing { trampoline, presented, renderer, stopped_by } => 2,
            PresentCall::Forwarding { trampoline, presented } => 1,
            PresentCall::Returning { result } => 0,
            PresentCall::Failed { failure } => 0,
        }
    }

    /// The renderer that is locked.
    pub open spec fn locked(self) -> Option<usize> {
        match self {
            PresentCall::Rendering { trampoline, presented, renderer } => Some(renderer),
            PresentCall::Releasing { trampoline, presented, renderer, stopped_by } =>
                Some(renderer),
            _ => None,
        }
    }

    /// The call to make next.
    pub fn next(&self) -> (action: PresentAction<'_, S>)
        ensures
            action == self.request(),
    {
        match self {
            PresentCall::SettingUp { presented, .. } => PresentAction::SetUp {
                swap_chain: &presented.swap_chain,
            },
            PresentCall::Keeping { renderer, .. } => PresentAction::Keep { renderer: *renderer },
            PresentCall::Locking { renderer, .. } => PresentAction::LockRenderer {
                renderer: *renderer,
            },
            PresentCall::Rendering { presented, renderer, .. } => PresentAction::Render {
                renderer: *renderer,
                swap_chain: &presented.swap_chain,
            },
            PresentCall::Releasing { renderer, .. } => PresentAction::Release {
                renderer: *renderer,
            },
            PresentCall::Forwarding { trampoline, presented } => PresentAction::Forward {
                trampoline: *trampoline,
                presented,
            },
            PresentCall::Returning { result } => PresentAction::Return { result: *result },
            PresentCall::Failed { failure } => PresentAction::Fail { failure: *failure },
        }
    }

    /// Takes in what the last call answered.
    pub fn advance(self, event: PresentEvent) -> (call: PresentCall<S>)
        ensures
            call == self.after(event),
    {
        match (self, event) {
            (
                PresentCall::SettingUp { trampoline, presented },
                PresentEvent::RendererReady { renderer },
            ) => PresentCall::Keeping { trampoline, presented, renderer },
            (PresentCall::SettingUp { .. }, PresentEvent::SetUpFailed { failure }) =>
                PresentCall::Failed { failure },
            (
                PresentCall::Locking { trampoline, presented, renderer },
                PresentEvent::RendererLocked,
            ) => PresentCall::Rendering { trampoline, presented, renderer },
            (
                PresentCall::Rendering { trampoline, presented, renderer },
                PresentEvent::Rendered,
            ) => PresentCall::Releasing { trampoline, presented, renderer, stopped_by: None },
            (
                PresentCall::Rendering { trampoline, presented, renderer },
                PresentEvent::RenderFailed { failure },
            ) => PresentCall::Releasing {
                trampoline,
                presented,
                renderer,
                stopped_by: Some(failure),
            },
            (
                PresentCall::Releasing { trampoline, presented, stopped_by, .. },
                PresentEvent::Released,
            ) => {
                match stopped_by {
                    Some(failure) => PresentCall::Failed { failure },
                    None => PresentCall::Forwarding { trampoline, presented },
                }
            },
            (PresentCall::Forwarding { .. }, PresentEvent::Forwarded { result }) =>
                PresentCall::Returning { result },
            (unmoved, _) => unmoved,
        }
    }

    /// Keeps the renderer in the slots, if that is what it waits for.
    pub fn keep_in(self, slots: &mut HookSlots) -> (call: PresentCall<S>)
        ensures
            call == self.kept_in(old(slots)@),
            final(slots)@ == self.left_in(old(slots)@),
    {
        match self {
            PresentCall::Keeping { trampoline, presented, renderer } => {
                let kept: usize = slots.keep_renderer(renderer);
                PresentCall::Locking { trampoline, presented, renderer: kept }
            },
            unmoved => unmoved,
        }
    }
}

/// Switching the hook on enables its detour once, whether or not that succeeds, and
/// nothing more.
pub proof fn law_detour_is_enabled_once<D>(hooks: ImguiDX11Hooks<D>, success: bool, again: bool)
    ensures
        ({
            let enabling = (Hooking::Enabling { detour: &hooks.hook_present });
            let finished = enabling.after(HookingEvent::Enabled { success });
            &&& enabling.request() == (HookingAction::Enable { detour: &hooks.hook_present })
            &&& finished.request() is Stop
            &&& finished.after(HookingEvent::Enabled { success: again }) == finished
        }),
{
}

/// Whether or not the detour could be disabled, the renderer, if there is one, is
/// cleaned up, and the render loop, if one is left, is dropped last; the slots then hold
/// neither.
pub proof fn law_unhooking_takes_everything_down<D>(
    hooks: ImguiDX11Hooks<D>,
    slots: SlotsView,
    success: bool,
)
    ensures
        ({
            let disabling = (Unhooking::Disabling { detour: &hooks.hook_present });
            let taking = disabling.after(UnhookingEvent::Disabled { success });
            let taken = taking.taken_from(slots);
            let without_renderer = taking.left_in(slots);
            let cleaned = taken.after(UnhookingEvent::CleanedUp);
            let dropping = cleaned.taken_from(without_renderer);
            let left = cleaned.left_in(without_renderer);
            let finished = dropping.after(UnhookingEvent::RenderLoopDropped);
            &&& disabling.request() == (UnhookingAction::Disable { detour: &hooks.hook_present })
            &&& taking.request() is TakeRenderer
            &&& slots.renderer is Some ==> taken.request() == (UnhookingAction::CleanUp::<D> {
                renderer: slots.renderer->0,
            })
            &&& slots.renderer is None ==> taken == cleaned
            &&& cleaned.request() is TakeRenderLoop
            &&& slots.render_loop is Some ==> dropping.request() == (
            UnhookingAction::DropRenderLoop::<D> { render_loop: slots.render_loop->0 })
            &&& slots.render_loop is None ==> dropping == finished
            &&& finished.request() is Stop
            &&& left == (SlotsView { trampoline: slots.trampoline, ..SlotsView::empty() })
        }),
{
}

/// Switching the hook off changes the slots only by taking out what it asked for, and an
/// answer, or what the slots give, brings its end nearer or, where something else was
/// waited for, changes nothing.
pub proof fn law_answers_bring_the_unhooking_nearer<D>(
    unhooking: Unhooking<'_, D>,
    slots: SlotsView,
    event: UnhookingEvent,
)
    ensures
        unhooking.after(event) == unhooking || unhooking.after(event).calls_left()
            < unhooking.calls_left(),
        unhooking.taken_from(slots) == unhooking || unhooking.taken_from(slots).calls_left()
            < unhooking.calls_left(),
        unhooking.calls_left() == 0 <==> unhooking.request() is Stop
            || unhooking.request() is Fail,
        unhooking.left_in(slots).trampoline == slots.trampoline,
        unhooking.left_in(slots).renderer != slots.renderer ==> unhooking.request() is TakeRenderer,
        unhooking.left_in(slots).render_loop != slots.render_loop
            ==> unhooking.request() is TakeRenderLoop,
{
}

/// Where the renderer cannot be cleaned up, switching the hook off ends with that
/// failure, and nothing makes it take or drop the render loop.
pub proof fn law_failed_cleanup_ends_the_unhooking<D>(
    unhooking: Unhooking<'_, D>,
    slots: SlotsView,
    failure: Failure,
    event: UnhookingEvent,
)
    requires
        unhooking is CleaningUp,
    ensures
        ({
            let failed = unhooking.after(UnhookingEvent::CleanUpFailed { failure });
            &&& failed.request() == (UnhookingAction::Fail::<D> { failure })
            &&& failed.after(event) == failed
            &&& failed.taken_from(slots) == failed
            &&& failed.left_in(slots) == slots
        }),
{
}

/// Once a hook is armed, a frame is rendered on the swap chain that is presented and
/// then handed, with the same arguments, to the original function of the first hook,
/// whose result is the result.
pub proof fn law_armed_frame_reaches_the_original<S>(
    slots: SlotsView,
    render_loop: usize,
    trampoline: usize,
    presented: Presented<S>,
    renderer: usize,
    result: i32,
)
    ensures
        ({
            let armed = slots.armed(render_loop, trampoline);
            let rendering = present_rendering(armed, presented, renderer);
            let releasing = rendering.after(PresentEvent::Rendered);
            let forwarding = releasing.after(PresentEvent::Released);
            let returning = forwarding.after(PresentEvent::Forwarded { result });
            let kept = armed.with_renderer(renderer).renderer->0;
            &&& rendering.request() == (PresentAction::Render {
                renderer: kept,
                swap_chain: &presented.swap_chain,
            })
            &&& releasing.request() == (PresentAction::Release::<S> { renderer: kept })
            &&& forwarding.request() == (PresentAction::Forward {
                trampoline: armed.trampoline->0,
                presented: &presented,
            })
            &&& slots.trampoline is None ==> armed.trampoline->0 == trampoline
            &&& returning.request() == (PresentAction::Return::<S> { result })
        }),
{
}

/// An answer, or keeping the renderer, brings the end of a frame nearer or, where
/// something else was waited for, changes nothing: no call is made twice, and the
/// original function last.
pub proof fn law_frame_makes_each_call_once<S>(
    call: PresentCall<S>,
    slots: SlotsView,
    event: PresentEvent,
)
    ensures
        call.after(event) == call || call.after(event).calls_left() < call.calls_left(),
        call.kept_in(slots) == call || call.kept_in(slots).calls_left() < call.calls_left(),
        call.kept_in(slots).request() is Forward ==> call.request() is Forward,
        call.calls_left() == 0 <==> call.request() is Return || call.request() is Fail,
        call.calls_left() == 1 <==> call.request() is Forward,
        call.request() !is Forward && call.after(event).request() is Forward
            ==> call.request() is Release,
{
}

/// A frame whose renderer cannot be set up, or whose overlay cannot be rendered, fails
/// with what stopped it, and no answer makes it call the original function.
pub proof fn law_failed_frame_is_not_forwarded<S>(
    trampoline: usize,
    presented: Presented<S>,
    renderer: usize,
    failure: Failure,
    event: PresentEvent,
)
    ensures
        ({
            let setting_up = (PresentCall::SettingUp { trampoline, presented });
            let rendering = (PresentCall::Rendering { trampoline, presented, renderer });
            let not_set_up = setting_up.after(PresentEvent::SetUpFailed { failure });
            let releasing = rendering.after(PresentEvent::RenderFailed { failure });
            let not_rendered = releasing.after(PresentEvent::Released);
            &&& setting_up.request() is SetUp
            &&& rendering.request() is Render
            &&& releasing.request() == (PresentAction::Release::<S> { renderer })
            &&& not_set_up.request() == (PresentAction::Fail::<S> { failure })
            &&& not_rendered.request() == (PresentAction::Fail::<S> { failure })
            &&& not_set_up.after(event) == not_set_up
            &&& not_rendered.after(event) == not_rendered
            &&& releasing.after(event) == releasing || releasing.after(event) == not_rendered
        }),
{
}

/// Whatever the order of answers, the renderer is locked only by a lock that was asked
/// for, and stays so until it has been released; whenever the original function is
/// called or a renderer is set up, none is locked.
pub proof fn law_original_is_not_called_under_the_lock<S>(
    call: PresentCall<S>,
    slots: SlotsView,
    event: PresentEvent,
)
    ensures
        call.kept_in(slots).locked() == call.locked(),
        call.request() is Render ==> call.locked() is Some,
        call.locked() is Some ==> call.request() is Render || call.request() is Release,
        call.locked() is None && call.after(event).locked() is Some ==> {
            &&& call.request() == (PresentAction::LockRenderer::<S> {
                renderer: call.after(event).locked()->0,
            })
            &&& event is RendererLocked
        },
        call.locked() is Some && call.after(event).locked() != call.locked() ==> {
            &&& call.request() == (PresentAction::Release::<S> { renderer: call.locked()->0 })
            &&& event is Released
            &&& call.after(event).locked() is None
        },
{
}

/// Before any hook is armed a frame fails, and no answer changes that.
pub proof fn law_unarmed_frame_fails<S>(
    slots: SlotsView,
    presented: Presented<S>,
    event: PresentEvent,
)
    requires
        slots.trampoline is None,
    ensures
        ({
            let failed = present_started(slots, presented);
            &&& failed.request() == (PresentAction::Fail::<S> {
                failure: Failure::TrampolineUninitialized,
            })
            &&& failed.after(event) == failed
        }),
{
}

/// A frame up to its rendering, where `fresh` is the renderer that a setup makes if one
/// is asked for.
pub open spec fn present_rendering<S>(
    slots: SlotsView,
    presented: Presented<S>,
    fresh: usize,
) -> PresentCall<S> {
    present_started(slots, presented).after(
        PresentEvent::RendererReady { renderer: fresh },
    ).kept_in(slots).after(PresentEvent::RendererLocked)
}

/// The slots after some frames, each given with the renderer that a setup makes if the
/// frame asks for one. A setup takes the render loop, and the frame keeps its renderer.
pub open spec fn slots_after<S>(
    slots: SlotsView,
    frames: Seq<(Presented<S>, usize)>,
) -> SlotsView
    decreases frames.len(),
{
    if frames.len() == 0 {
        slots
    } else {
        let (presented, fresh) = frames.last();
        let before = slots_after(slots, frames.drop_last());
        let started = present_started(before, presented);
        if started.request() is SetUp {
            started.after(PresentEvent::RendererReady { renderer: fresh }).left_in(
                before.without_render_loop(),
            )
        } else {
            before
        }
    }
}

proof fn lemma_renderer_after_frames<S>(slots: SlotsView, frames: Seq<(Presented<S>, usize)>)
    requires
        slots.trampoline is Some,
        slots.renderer is None,
        frames.len() > 0,
    ensures
        slots_after(slots, frames).renderer == Some(frames[0].1),
        slots_after(slots, frames).trampoline == slots.trampoline,
    decreases frames.len(),
{
    reveal_with_fuel(slots_after, 2);
    if frames.len() > 1 {
        lemma_renderer_after_frames(slots, frames.drop_last());
    }
}

/// However many frames are presented, only the first sets up a renderer, of its own swap
/// chain, and that renderer renders each of them, on the swap chain of that frame.
pub proof fn law_all_frames_share_one_renderer<S>(
    slots: SlotsView,
    frames: Seq<(Presented<S>, usize)>,
    i: int,
)
    requires
        slots.trampoline is Some,
        slots.renderer is None,
        0 <= i < frames.len(),
    ensures
        ({
            let before = slots_after(slots, frames.take(i));
            let started = present_started(before, frames[i].0);
            let rendering = present_rendering(before, frames[i].0, frames[i].1);
            &&& started.request() is SetUp <==> i == 0
            &&& i == 0 ==> started.request() == (PresentAction::SetUp {
                swap_chain: &frames[0].0.swap_chain,
            })
            &&& rendering.request() == (PresentAction::Render {
                renderer: frames[0].1,
                swap_chain: &frames[i].0.swap_chain,
            })
        }),
{
    if i > 0 {
        lemma_renderer_after_frames(slots, frames.take(i));
    }
}

/// A renderer gets the render loop of the hook armed last, and one that is set up after
/// it fails, until another hook is armed.
pub proof fn law_renderer_gets_the_last_render_loop<S, L>(
    slots: SlotsView,
    swap_chain: S,
    window: isize,
    render_loop: usize,
    trampoline: usize,
    next_loop: usize,
)
    ensures
        ({
            let armed = slots.armed(render_loop, trampoline);
            let taking = (RendererSetup::<S, L>::TakingLoop { swap_chain, window });
            let left = taking.left_in(armed);
            let rearmed = left.armed(next_loop, trampoline);
            &&& taking.taken_from(armed).request() == (SetupAction::FetchRenderLoop {
                id: render_loop,
            })
            &&& taking.taken_from(left).request() == (SetupAction::Fail {
                failure: Failure::NoRenderLoop,
            })
            &&& taking.taken_from(rearmed).request() == (SetupAction::FetchRenderLoop {
                id: next_loop,
            })
        }),
{
}

/// What a frame does first is decided by the slots alone: without a way to the original
/// function it fails, without a renderer it has one set up for the swap chain that is
/// presented, and with one it locks that.
pub proof fn law_frame_starts_by_what_the_slots_hold<S>(slots: SlotsView, presented: Presented<S>)
    ensures
        ({
            let started = present_started(slots, presented);
            &&& slots.trampoline is None ==> started.request() == (PresentAction::Fail::<S> {
                failure: Failure::TrampolineUninitialized,
            })
            &&& slots.trampoline is Some && slots.renderer is None ==> started.request() == (
            PresentAction::SetUp { swap_chain: &presented.swap_chain })
            &&& slots.trampoline is Some && slots.renderer is Some ==> started.request() == (
            PresentAction::LockRenderer::<S> { renderer: slots.renderer->0 })
        }),
{
}

/// A frame that had a renderer set up keeps it and goes on with it, unless another was
/// kept in the meantime: then it goes on with that. The other slots stay as they are.
pub proof fn law_renderer_set_up_is_kept<S>(
    slots: SlotsView,
    presented: Presented<S>,
    fresh: usize,
    later: SlotsView,
)
    requires
        slots.trampoline is Some,
        slots.renderer is None,
    ensures
        ({
            let keeping = present_started(slots, presented).after(
                PresentEvent::RendererReady { renderer: fresh },
            );
            let locking = keeping.kept_in(later);
            let left = keeping.left_in(later);
            &&& keeping.request() == (PresentAction::Keep::<S> { renderer: fresh })
            &&& later.renderer is None ==> locking.request() == (PresentAction::LockRenderer::<S> {
                renderer: fresh,
            })
            &&& later.renderer is Some ==> locking.request() == (PresentAction::LockRenderer::<S> {
                renderer: later.renderer->0,
            })
            &&& later.renderer is None ==> left.renderer == Some(fresh)
            &&& later.renderer is Some ==> left.renderer == later.renderer
            &&& left.trampoline == later.trampoline
            &&& left.render_loop == later.render_loop
        }),
{
}

/// The renderer that a frame has locked renders the overlay on the swap chain that is
/// presented; it is released; the original function that the slots held when the frame
/// started is called with exactly what the program handed over, and its result is the
/// result.
pub proof fn law_locked_frame_is_rendered_and_presented<S>(
    slots: SlotsView,
    presented: Presented<S>,
    fresh: usize,
    later: SlotsView,
    result: i32,
    failure: Failure,
)
    requires
        slots.trampoline is Some,
    ensures
        ({
            let started = present_started(slots, presented);
            let locking = started.after(PresentEvent::RendererReady { renderer: fresh }).kept_in(
                later,
            );
            let rendering = locking.after(PresentEvent::RendererLocked);
            let releasing = rendering.after(PresentEvent::Rendered);
            let forwarding = releasing.after(PresentEvent::Released);
            let returning = forwarding.after(PresentEvent::Forwarded { result });
            let stopped = rendering.after(PresentEvent::RenderFailed { failure });
            let refused = started.after(PresentEvent::SetUpFailed { failure });
            let renderer = if slots.renderer is Some {
                slots.renderer->0
            } else if later.renderer is Some {
                later.renderer->0
            } else {
                fresh
            };
            &&& locking.request() == (PresentAction::LockRenderer::<S> { renderer })
            &&& rendering.request() == (PresentAction::Render {
                renderer,
                swap_chain: &presented.swap_chain,
            })
            &&& releasing.request() == (PresentAction::Release::<S> { renderer })
            &&& forwarding.request() == (PresentAction::Forward {
                trampoline: slots.trampoline->0,
                presented: &presented,
            })
            &&& returning.request() == (PresentAction::Return::<S> { result })
            &&& stopped.request() == (PresentAction::Release::<S> { renderer })
            &&& stopped.after(PresentEvent::Released).request() == (PresentAction::Fail::<S> {
                failure,
            })
            &&& slots.renderer is None ==> refused.request() == (PresentAction::Fail::<S> {
                failure,
            })
        }),
{
}

/// Only an answer to the call that a frame waits for moves it, and only keeping the
/// renderer touches the slots.
pub proof fn law_unasked_answers_leave_a_present_call<S>(
    call: PresentCall<S>,
    slots: SlotsView,
    event: PresentEvent,
)
    ensures
        call.after(event) != call ==> {
            ||| call.request() is SetUp && event is RendererReady
            ||| call.request() is SetUp && event is SetUpFailed
            ||| call.request() is LockRenderer && event is RendererLocked
            ||| call.request() is Render && event is Rendered
            ||| call.request() is Render && event is RenderFailed
            ||| call.request() is Release && event is Released
            ||| call.request() is Forward && event is Forwarded
        },
        call.request() !is Keep ==> call.kept_in(slots) == call && call.left_in(slots) == slots,
{
}

/// Switching the hook off hands on what the slots hold, one by one: their renderer is the
/// one cleaned up and their render loop the one dropped, and afterwards there is neither,
/// while the way to the original function stays.
pub proof fn law_unhooking_empties_the_slots<D>(slots: SlotsView)
    ensures
        ({
            let taking = Unhooking::TakingRenderer::<D>;
            let left = taking.left_in(slots);
            &&& taking.request() is TakeRenderer
            &&& slots.renderer is Some ==> taking.taken_from(slots).request() == (
            UnhookingAction::CleanUp::<D> { renderer: slots.renderer->0 })
            &&& slots.renderer is None ==> taking.taken_from(slots).request() is TakeRenderLoop
            &&& left.renderer is None
            &&& left.render_loop == slots.render_loop
            &&& left.trampoline == slots.trampoline
        }),
        ({
            let taking = Unhooking::TakingLoop::<D>;
            let left = taking.left_in(slots);
            &&& taking.request() is TakeRenderLoop
            &&& slots.render_loop is Some ==> taking.taken_from(slots).request() == (
            UnhookingAction::DropRenderLoop::<D> { render_loop: slots.render_loop->0 })
            &&& slots.render_loop is None ==> taking.taken_from(slots).request() is Stop
            &&& left.render_loop is None
            &&& left.renderer == slots.renderer
            &&& left.trampoline == slots.trampoline
        }),
{
}

/// Only an answer to the call that the hook waits for moves it.
pub proof fn law_unasked_answers_leave_an_unhooking<D>(
    unhooking: Unhooking<'_, D>,
    slots: SlotsView,
    renderer: usize,
    render_loop: usize,
    failure: Failure,
    event: UnhookingEvent,
)
    ensures
        unhooking.after(event) != unhooking ==> {
            ||| unhooking.request() is Disable && event is Disabled
            ||| unhooking.request() is CleanUp && event is CleanedUp
            ||| unhooking.request() is CleanUp && event is CleanUpFailed
            ||| unhooking.request() is DropRenderLoop && event is RenderLoopDropped
        },
        unhooking.request() !is TakeRenderer && unhooking.request() !is TakeRenderLoop
            ==> unhooking.taken_from(slots) == unhooking && unhooking.left_in(slots) == slots,
        (Unhooking::CleaningUp::<D> { renderer }).after(
            UnhookingEvent::CleanedUp,
        ).request() is TakeRenderLoop,
        (Unhooking::CleaningUp::<D> { renderer }).after(
            UnhookingEvent::CleanUpFailed { failure },
        ).request() == (UnhookingAction::Fail::<D> { failure }),
        (Unhooking::DroppingLoop::<D> { render_loop }).after(
            UnhookingEvent::RenderLoopDropped,
        ).request() is Stop,
{
}

} // verus!
