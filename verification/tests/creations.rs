use hudhook::creation::{CreationAction, CreationEvent, Detoured, HookCreation};
use hudhook::failure::Failure;
use hudhook::hooks::ImguiDX11Hooks;
use hudhook::present::{ProbeAction, ProbeEvent};
use hudhook::slots::HookSlots;

fn looked_up(
    creation: HookCreation<&'static str>,
    event: ProbeEvent,
) -> HookCreation<&'static str> {
    creation.advance(CreationEvent::LookedUp { event })
}

fn described(render_loop: usize) -> HookCreation<&'static str> {
    let creation = ImguiDX11Hooks::new(render_loop);
    assert_eq!(creation.next(), CreationAction::LookUp { action: ProbeAction::FindInstance });
    let creation = looked_up(creation, ProbeEvent::InstanceFound { instance: 5 });
    let creation = looked_up(creation, ProbeEvent::Registered);
    looked_up(creation, ProbeEvent::WindowCreated { window: 6 })
}

fn found(render_loop: usize) -> HookCreation<&'static str> {
    let creation =
        looked_up(described(render_loop), ProbeEvent::DeviceCreated { has_swap_chain: true });
    assert_eq!(creation.next(), CreationAction::LookUp { action: ProbeAction::ReadTable });
    let creation = looked_up(creation, ProbeEvent::TableRead { present: 0xbeef });
    let destroy = ProbeAction::DestroyWindow { window: 6 };
    assert_eq!(creation.next(), CreationAction::LookUp { action: destroy });
    let creation = looked_up(creation, ProbeEvent::WindowDestroyed);
    assert_eq!(creation.next(), CreationAction::Detour { target: 0xbeef });
    creation
}

fn detoured(render_loop: usize, trampoline: usize) -> HookCreation<&'static str> {
    let detoured = Some(Detoured { detour: "detour", trampoline });
    let creation = found(render_loop).advance(CreationEvent::DetourTried { detoured });
    assert_eq!(creation.next(), CreationAction::Arm);
    creation
}

#[test]
fn first_hook_fills_the_slots() {
    let mut slots = HookSlots::new();
    let creation = detoured(41, 0x100).arm_in(&mut slots);
    assert_eq!(creation.next(), CreationAction::Stop);
    assert_eq!(creation.into_hooks(), Some(ImguiDX11Hooks { hook_present: "detour" }));
    assert_eq!(slots.render_loop(), Some(41));
    assert_eq!(slots.trampoline(), Some(0x100));
    assert_eq!(slots.renderer(), None);
}

#[test]
fn second_hook_renders_via_its_own_render_loop() {
    let mut slots = HookSlots::new();
    detoured(41, 0x100).arm_in(&mut slots);
    let creation = detoured(42, 0x200).arm_in(&mut slots);
    assert_eq!(creation.next(), CreationAction::DropRenderLoop { render_loop: 41 });
    let creation = creation.advance(CreationEvent::RenderLoopDropped);
    assert_eq!(creation.next(), CreationAction::Stop);
    assert!(creation.into_hooks().is_some());
    assert_eq!(slots.render_loop(), Some(42));
    assert_eq!(slots.trampoline(), Some(0x100));
}

#[test]
fn failed_detour_leaves_the_slots_alone() {
    let mut slots = HookSlots::new();
    let creation = found(41).advance(CreationEvent::DetourTried { detoured: None });
    let failure = Failure::CreateDetour;
    assert_eq!(creation.next(), CreationAction::Fail { failure, render_loop: 41 });
    assert_eq!(failure.message(), "Create detour");
    let creation = creation.arm_in(&mut slots);
    assert_eq!(creation, HookCreation::Failed { failure, render_loop: 41 });
    assert_eq!(slots.render_loop(), None);
    assert_eq!(slots.trampoline(), None);
    assert_eq!(creation.into_hooks(), None);
}

#[test]
fn failed_lookup_ends_the_creation() {
    let refused = looked_up(described(41), ProbeEvent::DeviceRefused);
    let failure = Failure::CreateDevice;
    assert_eq!(refused.next(), CreationAction::Fail { failure, render_loop: 41 });
    let bare = looked_up(described(41), ProbeEvent::DeviceCreated { has_swap_chain: false });
    let failure = Failure::NoSwapChain;
    assert_eq!(bare.next(), CreationAction::Fail { failure, render_loop: 41 });
}

#[test]
fn nothing_is_armed_without_a_detour() {
    let mut slots = HookSlots::new();
    let creation = found(41).arm_in(&mut slots);
    assert_eq!(creation.next(), CreationAction::Detour { target: 0xbeef });
    assert_eq!(slots.render_loop(), None);
    let early = described(41).advance(CreationEvent::DetourTried {
        detoured: Some(Detoured { detour: "detour", trampoline: 0x100 }),
    });
    assert_eq!(early, described(41));
}
