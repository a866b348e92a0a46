//! Finding the function that presents frames.
//!
//! Its address stands in the table of any swap chain, so one is created for a window
//! that exists for no other purpose.
use crate::failure::Failure;
use vstd::prelude::*;

verus! {

/// Each window of the class has its own device context.
pub const CS_OWNDC: u32 = 32;

/// Redraw when the width changes.
pub const CS_HREDRAW: u32 = 2;

/// Redraw when the height changes.
pub const CS_VREDRAW: u32 = 1;

/// The style of the class.
pub const CLASS_STYLE: u32 = 35;

/// A window with a title bar and a frame.
pub const WS_OVERLAPPEDWINDOW: u32 = 13565952;

/// A window that is visible from the start.
pub const WS_VISIBLE: u32 = 268435456;

/// The style of the window.
pub const VISIBLE_WINDOW: u32 = 282001408;

/// Four channels of eight bits.
pub const DXGI_FORMAT_R8G8B8A8_UNORM: u32 = 28;

/// Scan lines in no particular order.
pub const DXGI_MODE_SCANLINE_ORDER_UNSPECIFIED: i32 = 0;

/// Scaling left open.
pub const DXGI_MODE_SCALING_UNSPECIFIED: i32 = 0;

/// Contents of the back buffer are discarded.
pub const DXGI_SWAP_EFFECT_DISCARD: i32 = 0;

/// The back buffer is drawn to.
pub const DXGI_USAGE_RENDER_TARGET_OUTPUT: u32 = 32;

/// A driver of the hardware.
pub const D3D_DRIVER_TYPE_HARDWARE: i32 = 1;

/// The features of version 11.0.
pub const D3D_FEATURE_LEVEL_11_0: i32 = 45056;

/// The version of the headers.
pub const D3D11_SDK_VERSION: u32 = 7;

/// The class gives each window a device context of its own and redraws it whenever its
/// size changes; the window has a frame and is visible from the start.
pub proof fn law_styles_are_made_of_their_parts()
    ensures
        CLASS_STYLE == CS_OWNDC | CS_HREDRAW | CS_VREDRAW,
        VISIBLE_WINDOW == WS_OVERLAPPEDWINDOW | WS_VISIBLE,
{
    assert(CLASS_STYLE == CS_OWNDC | CS_HREDRAW | CS_VREDRAW) by (bit_vector);
    assert(VISIBLE_WINDOW == WS_OVERLAPPEDWINDOW | WS_VISIBLE) by (bit_vector);
}

/// The class of the window. Its procedure is the system's own.
#[derive(Clone, Copy, Debug, PartialEq, Eq)]
pub struct WindowClass {
    pub style: u32,
    pub class_extra: i32,
    pub window_extra: i32,
    pub instance: isize,
    pub icon: isize,
    pub cursor: isize,
    pub background: isize,
    pub menu_name: Option<&'static str>,
    pub class_name: &'static str,
}

/// The window.
#[derive(Clone, Copy, Debug, PartialEq, Eq)]
pub struct WindowRequest {
    pub extended_style: u32,
    pub class_name: &'static str,
    pub title: &'static str,
    pub style: u32,
    pub x: i32,
    pub y: i32,
    pub width: i32,
    pub height: i32,
    pub parent: isize,
    pub menu: isize,
    pub instance: isize,
}

/// The swap chain.
#[derive(Clone, Copy, Debug, PartialEq, Eq)]
pub struct SwapChainRequest {
    pub width: u32,
    pub height: u32,
    pub refresh_numerator: u32,
    pub refresh_denominator: u32,
    pub format: u32,
    pub scanline_ordering: i32,
    pub scaling: i32,
    pub sample_count: u32,
    pub sample_quality: u32,
    pub buffer_usage: u32,
    pub buffer_count: u32,
    pub output_window: isize,
    pub windowed: bool,
    pub swap_effect: i32,
    pub flags: u32,
}

/// The device.
#[derive(Clone, Copy, Debug, PartialEq, Eq)]
pub struct DeviceRequest {
    pub driver_type: i32,
    pub flags: u32,
    pub feature_level: i32,
    pub sdk_version: u32,
    pub swap_chain: SwapChainRequest,
}

/// A lookup, by the call it waits for.
#[derive(Clone, Copy, Debug, PartialEq, Eq)]
pub enum PresentProbe {
    /// The handle of the running program is to be found.
    FindingInstance,
    /// The class of the window is to be registered.
    Registering { instance: isize },
    /// The window is to be created.
    CreatingWindow { instance: isize },
    /// The device and its swap chain are to be created.
    CreatingDevice { window: isize },
    /// The address is to be read from the table of the swap chain.
    ReadingTable { window: isize },
    /// The window is to be destroyed.
    Destroying { window: isize, present: usize },
    /// The address has been found.
    Found { present: usize },
    /// There is no swap chain to read it from.
    Failed { failure: Failure },
}

/// The call that a lookup waits for.
#[derive(Clone, Copy, Debug, PartialEq, Eq)]
pub enum ProbeAction {
    /// Find the handle of the running program.
    FindInstance,
    /// Register a class of windows.
    RegisterClass { class: WindowClass },
    /// Create a window.
    CreateWindow { window: WindowRequest },
    /// Create a device and its swap chain.
    CreateDevice { device: DeviceRequest },
    /// Read the address of the function that presents frames.
    ReadTable,
    /// Destroy a window.
    DestroyWindow { window: isize },
    /// Nothing: this is the address.
    Return { present: usize },
    /// Nothing: the lookup has failed.
    Fail { failure: Failure },
}

/// What a call answered.
#[derive(Clone, Copy, Debug, PartialEq, Eq)]
pub enum ProbeEvent {
    /// The handle of the running program.
    InstanceFound { instance: isize },
    /// The class has been registered, or was so before.
    Registered,
    /// The handle of the window.
    WindowCreated { window: isize },
    /// The device has been created, with a swap chain or without.
    DeviceCreated { has_swap_chain: bool },
    /// The device has not been created.
    DeviceRefused,
    /// The address of the function that presents frames.
    TableRead { present: usize },
    /// The window has been destroyed.
    WindowDestroyed,
}

/// The class registered for the running program `instance`.
pub open spec fn dummy_class(instance: isize) -> WindowClass {
    WindowClass {
        style: CLASS_STYLE,
        class_extra: 0,
        window_extra: 0,
        instance,
        icon: 0,
        cursor: 0,
        background: 0,
        menu_name: None,
        class_name: "HUDHOOK_DUMMY\0",
    }
}

/// The window created for the running program `instance`.
pub open spec fn dummy_window(instance: isize) -> WindowRequest {
    WindowRequest {
        extended_style: 0,
        class_name: "HUDHOOK_DUMMY\0",
        title: "HUDHOOK_DUMMY\0",
        style: VISIBLE_WINDOW,
        x: 0,
        y: 0,
        width: 16,
        height: 16,
        parent: 0,
        menu: 0,
        instance,
    }
}

/// The device created for `window`.
pub open spec fn dummy_device(window: isize) -> DeviceRequest {
    DeviceRequest {
        driver_type: D3D_DRIVER_TYPE_HARDWARE,
        flags: 0,
        feature_level: D3D_FEATURE_LEVEL_11_0,
        sdk_version: D3D11_SDK_VERSION,
        swap_chain: SwapChainRequest {
            width: 0,
            height: 0,
            refresh_numerator: 0,
            refresh_denominator: 0,
            format: DXGI_FORMAT_R8G8B8A8_UNORM,
            scanline_ordering: DXGI_MODE_SCANLINE_ORDER_UNSPECIFIED,
            scaling: DXGI_MODE_SCALING_UNSPECIFIED,
            sample_count: 1,
            sample_quality: 0,
            buffer_usage: DXGI_USAGE_RENDER_TARGET_OUTPUT,
            buffer_count: 1,
            output_window: window,
            windowed: true,
            swap_effect: DXGI_SWAP_EFFECT_DISCARD,
            flags: 0,
        },
    }
}

impl PresentProbe {
    /// The call to make.
    pub open spec fn request(self) -> ProbeAction {
        match self {
            PresentProbe::FindingInstance => ProbeAction::FindInstance,
            PresentProbe::Registering { instance } => ProbeAction::RegisterClass {
                class: dummy_class(instance),
            },
            PresentProbe::CreatingWindow { instance } => ProbeAction::CreateWindow {
                window: dummy_window(instance),
            },
            PresentProbe::CreatingDevice { window } => ProbeAction::CreateDevice {
                device: dummy_device(window),
            },
            PresentProbe::ReadingTable { window } => ProbeAction::ReadTable,
            PresentProbe::Destroying { window, present } => ProbeAction::DestroyWindow { window },
            PresentProbe::Found { present } => ProbeAction::Return { present },
            PresentProbe::Failed { failure } => ProbeAction::Fail { failure },
        }
    }

    /// The lookup after an answer. An answer to a call that it does not wait for
    /// changes nothing.
    pub open spec fn after(self, event: ProbeEvent) -> PresentProbe {
        match (self, event) {
            (PresentProbe::FindingInstance, ProbeEvent::InstanceFound { instance }) =>
                PresentProbe::Registering { instance },
            (PresentProbe::Registering { instance }, ProbeEvent::Registered) =>
                PresentProbe::CreatingWindow { instance },
            (PresentProbe::CreatingWindow { instance }, ProbeEvent::WindowCreated { window }) =>
                PresentProbe::CreatingDevice { window },
            (
                PresentProbe::CreatingDevice { window },
                ProbeEvent::DeviceCreated { has_swap_chain },
            ) => if has_swap_chain {
                PresentProbe::ReadingTable { window }
            } else {
                PresentProbe::Failed { failure: Failure::NoSwapChain }
            },
            (PresentProbe::CreatingDevice { window }, ProbeEvent::DeviceRefused) =>
                PresentProbe::Failed { failure: Failure::CreateDevice },
            (PresentProbe::ReadingTable { window }, ProbeEvent::TableRead { present }) =>
                PresentProbe::Destroying { window, present },
            (PresentProbe::Destroying { window, present }, ProbeEvent::WindowDestroyed) =>
                PresentProbe::Found { present },
            _ => self,
        }
    }

    /// The window that has been created and not yet destroyed.
    pub open spec fn window(self) -> Option<isize> {
        match self {
            PresentProbe::CreatingDevice { window } => Some(window),
            PresentProbe::ReadingTable { window } => Some(window),
            PresentProbe::Destroying { window, present } => Some(window),
            _ => None,
        }
    }

    /// How many calls are left, at most.
    pub open spec fn calls_left(self) -> nat {
        match self {
            PresentProbe::FindingInstance => 6,
            PresentProbe::Registering { .. } => 5,
            PresentProbe::CreatingWindow { .. } => 4,
            PresentProbe::CreatingDevice { .. } => 3,
            PresentProbe::ReadingTable { .. } => 2,
            PresentProbe::Destroying { .. } => 1,
            PresentProbe::Found { .. } => 0,
            PresentProbe::Failed { .. } => 0,
        }
    }

    /// The call to make next.
    pub fn next(&self) -> (action: ProbeAction)
        ensures
            action == self.request(),
    {
        match *self {
            PresentProbe::FindingInstance => ProbeAction::FindInstance,
            PresentProbe::Registering { instance } => ProbeAction::RegisterClass {
                class: WindowClass {
                    style: CLASS_STYLE,
                    class_extra: 0,
                    window_extra: 0,
                    instance,
                    icon: 0,
                    cursor: 0,
                    background: 0,
                    menu_name: None,
                    class_name: "HUDHOOK_DUMMY\0",
                },
            },
            PresentProbe::CreatingWindow { instance } => ProbeAction::CreateWindow {
                window: WindowRequest {
                    extended_style: 0,
                    class_name: "HUDHOOK_DUMMY\0",
                    title: "HUDHOOK_DUMMY\0",
                    style: VISIBLE_WINDOW,
                    x: 0,
                    y: 0,
                    width: 16,
                    height: 16,
                    parent: 0,
                    menu: 0,
                    instance,
                },
            },
            PresentProbe::CreatingDevice { window } => ProbeAction::CreateDevice {
                device: DeviceRequest {
                    driver_type: D3D_DRIVER_TYPE_HARDWARE,
                    flags: 0,
                    feature_level: D3D_FEATURE_LEVEL_11_0,
                    sdk_version: D3D11_SDK_VERSION,
                    swap_chain: swap_chain_for(window),
                },
            },
            PresentProbe::ReadingTable { .. } => ProbeAction::ReadTable,
            PresentProbe::Destroying { window, .. } => ProbeAction::DestroyWindow { window },
            PresentProbe::Found { present } => ProbeAction::Return { present },
            PresentProbe::Failed { failure } => ProbeAction::Fail { failure },
        }
    }

    /// Takes in what the last call answered.
    pub fn advance(self, event: ProbeEvent) -> (probe: PresentProbe)
        ensures
            probe == self.after(event),
    {
        match (self, event) {
            (PresentProbe::FindingInstance, ProbeEvent::InstanceFound { instance }) =>
                PresentProbe::Registering { instance },
            (PresentProbe::Registering { instance }, ProbeEvent::Registered) =>
                PresentProbe::CreatingWindow { instance },
            (PresentProbe::CreatingWindow { .. }, ProbeEvent::WindowCreated { window }) =>
                PresentProbe::CreatingDevice { window },
            (
                PresentProbe::CreatingDevice { window },
                ProbeEvent::DeviceCreated { has_swap_chain },
            ) => {
                if has_swap_chain {
                    PresentProbe::ReadingTable { window }
                } else {
                    PresentProbe::Failed { failure: Failure::NoSwapChain }
                }
            },
            (PresentProbe::CreatingDevice { .. }, ProbeEvent::DeviceRefused) =>
                PresentProbe::Failed { failure: Failure::CreateDevice },
            (PresentProbe::ReadingTable { window }, ProbeEvent::TableRead { present }) =>
                PresentProbe::Destroying { window, present },
            (PresentProbe::Destroying { present, .. }, ProbeEvent::WindowDestroyed) =>
                PresentProbe::Found { present },
            _ => self,
        }
    }
}

/// The swap chain created for `window`.
fn swap_chain_for(window: isize) -> (swap_chain: SwapChainRequest)
    ensures
        swap_chain == dummy_device(window).swap_chain,
{
    SwapChainRequest {
        width: 0,
        height: 0,
        refresh_numerator: 0,
        refresh_denominator: 0,
        format: DXGI_FORMAT_R8G8B8A8_UNORM,
        scanline_ordering: DXGI_MODE_SCANLINE_ORDER_UNSPECIFIED,
        scaling: DXGI_MODE_SCALING_UNSPECIFIED,
        sample_count: 1,
        sample_quality: 0,
        buffer_usage: DXGI_USAGE_RENDER_TARGET_OUTPUT,
        buffer_count: 1,
        output_window: window,
        windowed: true,
        swap_effect: DXGI_SWAP_EFFECT_DISCARD,
        flags: 0,
    }
}

/// Starts to look up the address of the function that presents frames.
pub fn get_present_addr() -> (probe: PresentProbe)
    ensures
        probe == PresentProbe::FindingInstance,
{
    PresentProbe::FindingInstance
}

/// With a swap chain, the address read from its table is the one returned, and the
/// window drawn to is the one created and the one destroyed before that.
pub proof fn law_lookup_returns_what_the_table_holds(
    instance: isize,
    window: isize,
    present: usize,
)
    ensures
        ({
            let registering = PresentProbe::FindingInstance.after(
                ProbeEvent::InstanceFound { instance },
            );
            let creating = registering.after(ProbeEvent::Registered);
            let device = creating.after(ProbeEvent::WindowCreated { window });
            let reading = device.after(ProbeEvent::DeviceCreated { has_swap_chain: true });
            let destroying = reading.after(ProbeEvent::TableRead { present });
            let found = destroying.after(ProbeEvent::WindowDestroyed);
            &&& PresentProbe::FindingInstance.request() is FindInstance
            &&& registering.request() == (ProbeAction::RegisterClass {
                class: dummy_class(instance),
            })
            &&& creating.request() == (ProbeAction::CreateWindow {
                window: dummy_window(instance),
            })
            &&& dummy_window(instance).class_name@ == dummy_class(instance).class_name@
            &&& device.request() == (ProbeAction::CreateDevice { device: dummy_device(window) })
            &&& dummy_device(window).swap_chain.output_window == window
            &&& reading.request() is ReadTable
            &&& destroying.request() == (ProbeAction::DestroyWindow { window })
            &&& found.request() == (ProbeAction::Return { present })
        }),
{
}

/// Without a swap chain the lookup fails, and no answer changes that.
pub proof fn law_lookup_without_swap_chain_fails(window: isize, event: ProbeEvent)
    ensures
        ({
            let device = (PresentProbe::CreatingDevice { window });
            let refused = device.after(ProbeEvent::DeviceRefused);
            let bare = device.after(ProbeEvent::DeviceCreated { has_swap_chain: false });
            &&& refused.request() == (ProbeAction::Fail { failure: Failure::CreateDevice })
            &&& bare.request() == (ProbeAction::Fail { failure: Failure::NoSwapChain })
            &&& refused.after(event) == refused
            &&& bare.after(event) == bare
        }),
{
}

/// In whatever order answers come in, the window that was created is kept until exactly
/// that window has been asked to be destroyed, unless the lookup fails.
pub proof fn law_window_is_kept_until_destroyed(probe: PresentProbe, event: ProbeEvent)
    ensures
        probe.window() is None && probe.after(event).window() is Some ==> {
            &&& probe.request() is CreateWindow
            &&& event == (ProbeEvent::WindowCreated { window: probe.after(event).window()->0 })
        },
        probe.window() is Some && probe.after(event).window() != probe.window() ==> {
            ||| {
                &&& probe.request() == (ProbeAction::DestroyWindow { window: probe.window()->0 })
                &&& event is WindowDestroyed
                &&& probe.after(event).request() is Return
            }
            ||| {
                &&& probe.request() is CreateDevice
                &&& probe.after(event).request() is Fail
            }
        },
        probe.request() is Return ==> probe.window() is None,
{
}

/// An answer brings the end of a lookup nearer or, where another call was waited for,
/// changes nothing.
pub proof fn law_answers_bring_the_address_nearer(probe: PresentProbe, event: ProbeEvent)
    ensures
        probe.after(event) == probe || probe.after(event).calls_left() < probe.calls_left(),
        probe.calls_left() == 0 <==> probe.request() is Return || probe.request() is Fail,
{
}

/// What the calls of a lookup are made with: a class and a window of the running program,
/// both of one name, and a device of the hardware whose swap chain draws to that window.
pub proof fn law_lookup_asks_for_a_window_and_its_swap_chain(
    instance: isize,
    window: isize,
    present: usize,
)
    ensures
        ({
            let registering = PresentProbe::FindingInstance.after(
                ProbeEvent::InstanceFound { instance },
            );
            let creating = registering.after(ProbeEvent::Registered);
            let described = creating.after(ProbeEvent::WindowCreated { window });
            &&& registering.request() matches ProbeAction::RegisterClass { class } && {
                &&& class.style == 35
                &&& class.class_extra == 0 && class.window_extra == 0
                &&& class.instance == instance
                &&& class.icon == 0 && class.cursor == 0 && class.background == 0
                &&& class.menu_name is None
                &&& class.class_name@ == "HUDHOOK_DUMMY\0"@
            }
            &&& creating.request() matches ProbeAction::CreateWindow { window: dummy } && {
                &&& dummy.extended_style == 0 && dummy.style == 282001408
                &&& dummy.class_name@ == "HUDHOOK_DUMMY\0"@
                &&& dummy.title@ == "HUDHOOK_DUMMY\0"@
                &&& dummy.x == 0 && dummy.y == 0 && dummy.width == 16 && dummy.height == 16
                &&& dummy.parent == 0 && dummy.menu == 0
                &&& dummy.instance == instance
            }
            &&& described.request() matches ProbeAction::CreateDevice { device } && {
                &&& device.driver_type == 1 && device.flags == 0
                &&& device.feature_level == 45056 && device.sdk_version == 7
                &&& device.swap_chain.output_window == window
                &&& device.swap_chain.windowed
                &&& device.swap_chain.format == 28
                &&& device.swap_chain.buffer_count == 1 && device.swap_chain.buffer_usage == 32
                &&& device.swap_chain.sample_count == 1 && device.swap_chain.sample_quality == 0
                &&& device.swap_chain.width == 0 && device.swap_chain.height == 0
                &&& device.swap_chain.refresh_numerator == 0
                &&& device.swap_chain.refresh_denominator == 0
                &&& device.swap_chain.scanline_ordering == 0 && device.swap_chain.scaling == 0
                &&& device.swap_chain.swap_effect == 0 && device.swap_chain.flags == 0
            }
        }),
{
}

/// Only an answer to the call that a lookup waits for moves it.
pub proof fn law_unasked_answers_leave_a_lookup(probe: PresentProbe, event: ProbeEvent)
    ensures
        probe.after(event) != probe ==> {
            ||| probe.request() is FindInstance && event is InstanceFound
            ||| probe.request() is RegisterClass && event is Registered
            ||| probe.request() is CreateWindow && event is WindowCreated
            ||| probe.request() is CreateDevice && event is DeviceCreated
            ||| probe.request() is CreateDevice && event is DeviceRefused
            ||| probe.request() is ReadTable && event is TableRead
            ||| probe.request() is DestroyWindow && event is WindowDestroyed
        },
{
}

} // verus!
