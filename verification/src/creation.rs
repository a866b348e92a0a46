//! How the hook on the function that presents frames comes about.
use crate::failure::Failure;
use crate::hooks::ImguiDX11Hooks;
use crate::present::{PresentProbe, ProbeAction, ProbeEvent};
use crate::slots::{HookSlots, SlotsView};
use vstd::prelude::*;

verus! {

/// A detour `D` that has been created.
#[derive(Debug, PartialEq, Eq)]
pub struct Detoured<D> {
    /// The detour.
    pub detour: D,
    /// The address by which the original function can still be called.
    pub trampoline: usize,
}

/// A hook being created for a render loop, by what it waits for.
#[derive(Debug, PartialEq, Eq)]
pub enum HookCreation<D> {
    /// The address of the function that presents frames is to be looked up.
    LookingUp { render_loop: usize, probe: PresentProbe },
    /// The function at that address is to be detoured.
    Detouring { render_loop: usize, target: usize },
    /// The render loop and the way to the original function are to be left in the slots.
    Arming { render_loop: usize, detoured: Detoured<D> },
    /// The render loop that waited in the slots before is to be dropped.
    DroppingReplaced { hooks: ImguiDX11Hooks<D>, replaced: usize },
    /// The hook has been created.
    Created { hooks: ImguiDX11Hooks<D> },
    /// There will be no hook.
    Failed { failure: Failure, render_loop: usize },
}

/// What a creation waits for.
#[derive(Clone, Copy, Debug, PartialEq, Eq)]
pub enum CreationAction {
    /// Make a call of the lookup.
    LookUp { action: ProbeAction },
    /// Detour the function at `target`.
    Detour { target: usize },
    /// Leave the render loop and the way to the original function in the slots, with
    /// `arm_in`.
    Arm,
    /// Drop a render loop that has been replaced.
    DropRenderLoop { render_loop: usize },
    /// Nothing: the hook has been created.
    Stop,
    /// Nothing: the creation has failed, and the render loop is not needed any more.
    Fail { failure: Failure, render_loop: usize },
}

/// What a call answered.
#[derive(Debug)]
pub enum CreationEvent<D> {
    /// What a call of the lookup answered.
    LookedUp { event: ProbeEvent },
    /// The detour, if it could be created.
    DetourTried { detoured: Option<Detoured<D>> },
    /// The render loop that had been replaced has been dropped.
    RenderLoopDropped,
}

impl<D> HookCreation<D> {
    /// A creation that starts.
    pub open spec fn started(render_loop: usize) -> HookCreation<D> {
        HookCreation::LookingUp { render_loop, probe: PresentProbe::FindingInstance }
    }

    /// A lookup goes on only until it is over.
    pub open spec fn is_valid(self) -> bool {
        self matches HookCreation::LookingUp { render_loop, probe } ==> probe.calls_left() > 0
    }

    /// What to do.
    pub open spec fn request(self) -> CreationAction {
        match self {
            HookCreation::LookingUp { render_loop, probe } => CreationAction::LookUp {
                action: probe.request(),
            },
            HookCreation::Detouring { render_loop, target } => CreationAction::Detour { target },
            HookCreation::Arming { render_loop, detoured } => CreationAction::Arm,
            HookCreation::DroppingReplaced { hooks, replaced } => CreationAction::DropRenderLoop {
                render_loop: replaced,
            },
            HookCreation::Created { hooks } => CreationAction::Stop,
            HookCreation::Failed { failure, render_loop } => CreationAction::Fail {
                failure,
                render_loop,
            },
        }
    }

    /// The creation after an answer. An answer to a call that it does not wait for
    /// changes nothing.
    pub open spec fn after(self, event: CreationEvent<D>) -> HookCreation<D> {
        match (self, event) {
            (HookCreation::LookingUp { render_loop, probe }, CreationEvent::LookedUp { event }) =>
                match probe.after(event) {
                    PresentProbe::Found { present } => HookCreation::Detouring {
                        render_loop,
                        target: present,
                    },
                    PresentProbe::Failed { failure } => HookCreation::Failed {
                        failure,
                        render_loop,
                    },
                    probe => HookCreation::LookingUp { render_loop, probe },
                },
            (
                HookCreation::Detouring { render_loop, target },
                CreationEvent::DetourTried { detoured },
            ) => match detoured {
                Some(detoured) => HookCreation::Arming { render_loop, detoured },
                None => HookCreation::Failed { failure: Failure::CreateDetour, render_loop },
            },
            (
                HookCreation::DroppingReplaced { hooks, replaced },
                CreationEvent::RenderLoopDropped,
            ) => HookCreation::Created { hooks },
            _ => self,
        }
    }

    /// The creation after it has left in the slots what is to be left there.
    pub open spec fn armed_in(self, slots: SlotsView) -> HookCreation<D> {
        match self {
            HookCreation::Arming { render_loop, detoured } => {
                let hooks = ImguiDX11Hooks { hook_present: detoured.detour };
                match slots.render_loop {
                    Some(replaced) => HookCreation::DroppingReplaced { hooks, replaced },
                    None => HookCreation::Created { hooks },
                }
            },
            _ => self,
        }
    }

    /// What is in the slots then.
    pub open spec fn left_in(self, slots: SlotsView) -> SlotsView {
        match self {
            HookCreation::Arming { render_loop, detoured } => slots.armed(
                render_loop,
                detoured.trampoline,
            ),
            _ => slots,
        }
    }

    /// How many calls are left, at most.
    pub open spec fn calls_left(self) -> nat {
        match self {
            HookCreation::LookingUp { render_loop, probe } => 3 + probe.calls_left(),
            HookCreation::Detouring { .. } => 3,
            HookCreation::Arming { .. } => 2,
            HookCreation::DroppingReplaced { .. } => 1,
            HookCreation::Created { .. } => 0,
            HookCreation::Failed { .. } => 0,
        }
    }

    /// What to do next.
    pub fn next(&self) -> (action: CreationAction)
        ensures
            action == self.request(),
    {
        match self {
            HookCreation::LookingUp { probe, .. } => CreationAction::LookUp {
                action: probe.next(),
            },
            HookCreation::Detouring { target, .. } => CreationAction::Detour { target: *target },
            HookCreation::Arming { .. } => CreationAction::Arm,
            HookCreation::DroppingReplaced { replaced, .. } => CreationAction::DropRenderLoop {
                render_loop: *replaced,
            },
            HookCreation::Created { .. } => CreationAction::Stop,
            HookCreation::Failed { failure, render_loop } => CreationAction::Fail {
                failure: *failure,
                render_loop: *render_loop,
            },
        }
    }

    /// Takes in what the last call answered.
    pub fn advance(self, event: CreationEvent<D>) -> (creation: HookCreation<D>)
        ensures
            creation == self.after(event),
    {
        match (self, event) {
            (HookCreation::LookingUp { render_loop, probe }, CreationEvent::LookedUp { event }) => {
                match probe.advance(event) {
                    PresentProbe::Found { present } => HookCreation::Detouring {
                        render_loop,
                        target: present,
                    },
                    PresentProbe::Failed { failure } => HookCreation::Failed {
                        failure,
                        render_loop,
                    },
                    probe => HookCreation::LookingUp { render_loop, probe },
                }
            },
            (
                HookCreation::Detouring { render_loop, .. },
                CreationEvent::DetourTried { detoured },
            ) => {
                match detoured {
                    Some(detoured) => HookCreation::Arming { render_loop, detoured },
                    None => HookCreation::Failed { failure: Failure::CreateDetour, render_loop },
                }
            },
            (
                HookCreation::DroppingReplaced { hooks, .. },
                CreationEvent::RenderLoopDropped,
            ) => HookCreation::Created { hooks },
            (unmoved, _) => unmoved,
        }
    }

    /// Leaves the render loop in the slots, in place of one that still waits there, and
    /// the way to the original function where none has been left before, if that is what
    /// it waits for.
    pub fn arm_in(self, slots: &mut HookSlots) -> (creation: HookCreation<D>)
        ensures
            creation == self.armed_in(old(slots)@),
            final(slots)@ == self.left_in(old(slots)@),
    {
        match self {
            HookCreation::Arming { render_loop, detoured } => {
                let waiting = slots.render_loop();
                slots.arm(render_loop, detoured.trampoline);
                let hooks = ImguiDX11Hooks { hook_present: detoured.detour };
                match waiting {
                    Some(replaced) => HookCreation::DroppingReplaced { hooks, replaced },
                    None => HookCreation::Created { hooks },
                }
            },
            unmoved => unmoved,
        }
    }

    /// The hook, once it has been created.
    pub fn into_hooks(self) -> (hooks: Option<ImguiDX11Hooks<D>>)
        ensures
            hooks == (match self {
                HookCreation::Created { hooks } => Some(hooks),
                _ => None,
            }),
    {
        match self {
            HookCreation::Created { hooks } => Some(hooks),
            _ => None,
        }
    }
}

/// A creation starts with a lookup that is not over, and stays so: it never makes a call
/// of a lookup that has an address or has failed.
pub proof fn law_creation_stays_valid<D>(
    render_loop: usize,
    creation: HookCreation<D>,
    slots: SlotsView,
    event: CreationEvent<D>,
)
    requires
        creation.is_valid(),
    ensures
        HookCreation::<D>::started(render_loop).is_valid(),
        creation.after(event).is_valid(),
        creation.armed_in(slots).is_valid(),
        creation.request() matches CreationAction::LookUp { action } ==> action !is Return
            && action !is Fail,
{
}

/// The address that the lookup reads from the table is the one that is detoured, after
/// the window of the lookup has been destroyed.
pub proof fn law_address_found_is_detoured<D>(
    render_loop: usize,
    instance: isize,
    window: isize,
    present: usize,
)
    ensures
        ({
            let looking = HookCreation::<D>::started(render_loop).after(
                CreationEvent::LookedUp { event: ProbeEvent::InstanceFound { instance } },
            ).after(CreationEvent::LookedUp { event: ProbeEvent::Registered }).after(
                CreationEvent::LookedUp { event: ProbeEvent::WindowCreated { window } },
            ).after(
                CreationEvent::LookedUp {
                    event: ProbeEvent::DeviceCreated { has_swap_chain: true },
                },
            );
            let read = looking.after(
                CreationEvent::LookedUp { event: ProbeEvent::TableRead { present } },
            );
            let found = read.after(CreationEvent::LookedUp { event: ProbeEvent::WindowDestroyed });
            &&& looking.request() == (CreationAction::LookUp { action: ProbeAction::ReadTable })
            &&& read.request() == (CreationAction::LookUp {
                action: ProbeAction::DestroyWindow { window },
            })
            &&& found.request() == (CreationAction::Detour { target: present })
        }),
{
}

/// Whatever the order of answers, a detour is asked for only of the address with which
/// the lookup ended, and the slots are armed only once there is a detour.
pub proof fn law_nothing_is_armed_before_the_detour<D>(
    creation: HookCreation<D>,
    slots: SlotsView,
    event: CreationEvent<D>,
)
    ensures
        creation.request() !is Detour && creation.after(event).request() is Detour ==> {
            &&& creation is LookingUp
            &&& event is LookedUp
            &&& creation->probe.after(event->LookedUp_event).request() == (ProbeAction::Return {
                present: creation.after(event).request()->target,
            })
        },
        creation.request() !is Arm && creation.after(event).request() is Arm ==> {
            &&& creation.request() is Detour
            &&& event matches CreationEvent::DetourTried { detoured: Some(_) }
        },
        creation.left_in(slots) != slots ==> creation.request() is Arm,
        creation.request() !is Arm ==> creation.armed_in(slots) == creation,
{
}

/// A detour that has been created becomes the hook; the slots then hold the render loop
/// that was provided, and the way to the original function where there was none, and a
/// render loop that waited there is dropped.
pub proof fn law_detour_becomes_an_armed_hook<D>(
    render_loop: usize,
    target: usize,
    detoured: Detoured<D>,
    slots: SlotsView,
)
    ensures
        ({
            let detouring = (HookCreation::<D>::Detouring { render_loop, target });
            let arming = detouring.after(
                CreationEvent::DetourTried { detoured: Some(detoured) },
            );
            let armed = arming.armed_in(slots);
            let created = armed.after(CreationEvent::RenderLoopDropped);
            &&& arming.request() is Arm
            &&& arming.left_in(slots) == slots.armed(render_loop, detoured.trampoline)
            &&& arming.left_in(slots).render_loop == Some(render_loop)
            &&& slots.render_loop is Some ==> armed.request() == (CreationAction::DropRenderLoop {
                render_loop: slots.render_loop->0,
            })
            &&& slots.render_loop is None ==> armed == created
            &&& created == (HookCreation::Created {
                hooks: ImguiDX11Hooks { hook_present: detoured.detour },
            })
        }),
{
}

/// Where there is no detour, or the lookup fails, the creation fails with that, hands the
/// render loop back, and nothing makes it touch the slots.
pub proof fn law_failed_creation_leaves_the_slots_alone<D>(
    creation: HookCreation<D>,
    target: usize,
    render_loop: usize,
    window: isize,
    slots: SlotsView,
    event: CreationEvent<D>,
)
    ensures
        ({
            let detouring = (HookCreation::<D>::Detouring { render_loop, target });
            let undetoured = detouring.after(CreationEvent::DetourTried { detoured: None });
            let probe = (PresentProbe::CreatingDevice { window });
            let looking = (HookCreation::<D>::LookingUp { render_loop, probe });
            let refused = looking.after(
                CreationEvent::LookedUp { event: ProbeEvent::DeviceRefused },
            );
            let bare = looking.after(
                CreationEvent::LookedUp {
                    event: ProbeEvent::DeviceCreated { has_swap_chain: false },
                },
            );
            &&& undetoured.request() == (CreationAction::Fail {
                failure: Failure::CreateDetour,
                render_loop,
            })
            &&& refused.request() == (CreationAction::Fail {
                failure: Failure::CreateDevice,
                render_loop,
            })
            &&& bare.request() == (CreationAction::Fail {
                failure: Failure::NoSwapChain,
                render_loop,
            })
        }),
        creation is Failed ==> {
            &&& creation.after(event) == creation
            &&& creation.armed_in(slots) == creation
            &&& creation.left_in(slots) == slots
        },
{
}

/// An answer, or arming the slots, brings the end of a creation nearer or, where
/// something else was waited for, changes nothing.
pub proof fn law_answers_bring_the_hook_nearer<D>(
    creation: HookCreation<D>,
    slots: SlotsView,
    event: CreationEvent<D>,
)
    requires
        creation.is_valid(),
    ensures
        creation.after(event) == creation || creation.after(event).calls_left()
            < creation.calls_left(),
        creation.armed_in(slots) == creation || creation.armed_in(slots).calls_left()
            < creation.calls_left(),
        creation.calls_left() == 0 <==> creation.request() is Stop || creation.request() is Fail,
{
}

/// While a creation looks up the address, what it asks for is the very call that its
/// lookup waits for, and it takes in answers as its lookup does, until that is over.
pub proof fn law_creation_makes_the_calls_of_its_lookup<D>(
    render_loop: usize,
    probe: PresentProbe,
    event: ProbeEvent,
)
    ensures
        ({
            let looking = (HookCreation::<D>::LookingUp { render_loop, probe });
            let looked = looking.after(CreationEvent::LookedUp { event });
            let over = probe.after(event);
            &&& looking.request() == (CreationAction::LookUp { action: probe.request() })
            &&& over.request() matches ProbeAction::Return { present }
                ==> looked.request() == (CreationAction::Detour { target: present })
            &&& over.request() matches ProbeAction::Fail { failure } ==> looked.request() == (
            CreationAction::Fail { failure, render_loop })
            &&& over.request() !is Return && over.request() !is Fail ==> looked == (
            HookCreation::<D>::LookingUp { render_loop, probe: over })
        }),
{
}

/// A creation starts by finding the running program. Then it asks for a class and a
/// window of that program, and for a device of the hardware whose swap chain draws to the
/// window that was created; from the swap chain's table comes the address to detour.
pub proof fn law_creation_asks_for_a_window_and_its_swap_chain<D>(
    render_loop: usize,
    instance: isize,
    window: isize,
    present: usize,
)
    ensures
        ({
            let started = HookCreation::<D>::started(render_loop);
            let registering = started.after(
                CreationEvent::LookedUp { event: ProbeEvent::InstanceFound { instance } },
            );
            let creating = registering.after(
                CreationEvent::LookedUp { event: ProbeEvent::Registered },
            );
            let described = creating.after(
                CreationEvent::LookedUp { event: ProbeEvent::WindowCreated { window } },
            );
            &&& started.request() == (CreationAction::LookUp { action: ProbeAction::FindInstance })
            &&& registering.request() matches CreationAction::LookUp {
                action: ProbeAction::RegisterClass { class },
            } && {
                &&& class.style == 35
                &&& class.class_extra == 0 && class.window_extra == 0
                &&& class.instance == instance
                &&& class.icon == 0 && class.cursor == 0 && class.background == 0
                &&& class.menu_name is None
                &&& class.class_name@ == "HUDHOOK_DUMMY\0"@
            }
            &&& creating.request() matches CreationAction::LookUp {
                action: ProbeAction::CreateWindow { window: dummy },
            } && {
                &&& dummy.extended_style == 0 && dummy.style == 282001408
                &&& dummy.class_name@ == "HUDHOOK_DUMMY\0"@
                &&& dummy.title@ == "HUDHOOK_DUMMY\0"@
                &&& dummy.x == 0 && dummy.y == 0 && dummy.width == 16 && dummy.height == 16
                &&& dummy.parent == 0 && dummy.menu == 0
                &&& dummy.instance == instance
            }
            &&& described.request() matches CreationAction::LookUp {
                action: ProbeAction::CreateDevice { device },
            } && {
                &&& device.driver_type == 1 && device.flags == 0
                &&& device.feature_level == 45056 && device.sdk_version == 7
                &&& device.swap_chain.output_window == window
                &&& device.swap_chain.windowed
                &&& device.swap_chain.format == 28
                &&& device.swap_chain.buffer_count == 1 && device.swap_chain.buffer_usage == 32
                &&& device.swap_chain.sample_count == 1 && device.swap_chain.sample_quality == 0
                &&& device.swap_chain.width == 0 && device.swap_chain.height == 0
                &&& device.swap_chain.refresh_numerator == 0
                &&& device.swap_chain.refresh_denominator == 0
                &&& device.swap_chain.scanline_ordering == 0 && device.swap_chain.scaling == 0
                &&& device.swap_chain.swap_effect == 0 && device.swap_chain.flags == 0
            }
        }),
{
}

/// Only an answer to the call that a creation waits for moves it.
pub proof fn law_unasked_answers_leave_a_creation<D>(
    creation: HookCreation<D>,
    event: CreationEvent<D>,
)
    ensures
        creation.after(event) != creation ==> {
            ||| creation.request() is LookUp && event is LookedUp
            ||| creation.request() is Detour && event is DetourTried
            ||| creation.request() is DropRenderLoop && event is RenderLoopDropped
        },
{
}

/// The render loop that a hook was asked for is the one that the slots hold once they are
/// armed, the way to the original function is the one that was there first, and the
/// renderer is left as it was.
pub proof fn law_slots_are_armed_with_what_was_provided<D>(
    render_loop: usize,
    detoured: Detoured<D>,
    slots: SlotsView,
)
    ensures
        ({
            let arming = (HookCreation::<D>::Arming { render_loop, detoured });
            let left = arming.left_in(slots);
            &&& left.render_loop == Some(render_loop)
            &&& slots.trampoline is None ==> left.trampoline == Some(detoured.trampoline)
            &&& slots.trampoline is Some ==> left.trampoline == slots.trampoline
            &&& left.renderer == slots.renderer
        }),
{
}

} // verus!
