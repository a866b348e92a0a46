use hudhook::failure::Failure;
use hudhook::present::{get_present_addr, PresentProbe, ProbeAction, ProbeEvent};
use windows::Win32::Graphics::Direct3D::{D3D_DRIVER_TYPE_HARDWARE, D3D_FEATURE_LEVEL_11_0};
use windows::Win32::Graphics::Direct3D11::D3D11_SDK_VERSION;
use windows::Win32::Graphics::Dxgi::Common::{
    DXGI_FORMAT_R8G8B8A8_UNORM, DXGI_MODE_SCALING_UNSPECIFIED,
    DXGI_MODE_SCANLINE_ORDER_UNSPECIFIED,
};
use windows::Win32::Graphics::Dxgi::{
    DXGI_SWAP_EFFECT_DISCARD, DXGI_USAGE_RENDER_TARGET_OUTPUT,
};
use windows::Win32::UI::WindowsAndMessaging::{
    CS_HREDRAW, CS_OWNDC, CS_VREDRAW, WS_OVERLAPPEDWINDOW, WS_VISIBLE,
};

#[test]
fn address_is_read_from_the_table_of_a_swap_chain() {
    let probe = get_present_addr();
    assert_eq!(probe.next(), ProbeAction::FindInstance);
    let probe = probe.advance(ProbeEvent::InstanceFound { instance: 5 });
    match probe.next() {
        ProbeAction::RegisterClass { class } => {
            assert_eq!(class.style, (CS_OWNDC | CS_HREDRAW | CS_VREDRAW).0);
            assert_eq!(class.instance, 5);
            assert_eq!(class.class_name, "HUDHOOK_DUMMY\0");
            assert_eq!(class.menu_name, None);
            assert_eq!((class.class_extra, class.window_extra), (0, 0));
            assert_eq!((class.icon, class.cursor, class.background), (0, 0, 0));
        },
        other => panic!("{:?}", other),
    }
    let probe = probe.advance(ProbeEvent::Registered);
    match probe.next() {
        ProbeAction::CreateWindow { window } => {
            assert_eq!(window.style, (WS_OVERLAPPEDWINDOW | WS_VISIBLE).0);
            assert_eq!(window.extended_style, 0);
            assert_eq!((window.class_name, window.title), ("HUDHOOK_DUMMY\0", "HUDHOOK_DUMMY\0"));
            assert_eq!((window.x, window.y, window.width, window.height), (0, 0, 16, 16));
            assert_eq!((window.parent, window.menu, window.instance), (0, 0, 5));
        },
        other => panic!("{:?}", other),
    }
    let probe = probe.advance(ProbeEvent::WindowCreated { window: 6 });
    match probe.next() {
        ProbeAction::CreateDevice { device } => {
            assert_eq!(device.driver_type, D3D_DRIVER_TYPE_HARDWARE.0);
            assert_eq!(device.feature_level, D3D_FEATURE_LEVEL_11_0.0);
            assert_eq!(device.sdk_version, D3D11_SDK_VERSION);
            assert_eq!(device.flags, 0);
            let chain = device.swap_chain;
            assert_eq!(chain.format, DXGI_FORMAT_R8G8B8A8_UNORM.0);
            assert_eq!(chain.scanline_ordering, DXGI_MODE_SCANLINE_ORDER_UNSPECIFIED.0);
            assert_eq!(chain.scaling, DXGI_MODE_SCALING_UNSPECIFIED.0);
            assert_eq!(chain.swap_effect, DXGI_SWAP_EFFECT_DISCARD.0);
            assert_eq!(chain.buffer_usage, DXGI_USAGE_RENDER_TARGET_OUTPUT);
            assert_eq!((chain.buffer_count, chain.sample_count), (1, 1));
            assert_eq!((chain.width, chain.height, chain.sample_quality, chain.flags), (0, 0, 0, 0));
            assert_eq!((chain.refresh_numerator, chain.refresh_denominator), (0, 0));
            assert_eq!(chain.output_window, 6);
            assert!(chain.windowed);
        },
        other => panic!("{:?}", other),
    }
    let probe = probe.advance(ProbeEvent::DeviceCreated { has_swap_chain: true });
    assert_eq!(probe.next(), ProbeAction::ReadTable);
    let probe = probe.advance(ProbeEvent::TableRead { present: 0xbeef });
    assert_eq!(probe.next(), ProbeAction::DestroyWindow { window: 6 });
    let probe = probe.advance(ProbeEvent::WindowDestroyed);
    assert_eq!(probe.next(), ProbeAction::Return { present: 0xbeef });
}

#[test]
fn lookup_fails_without_a_swap_chain() {
    let device = PresentProbe::CreatingDevice { window: 6 };
    let refused = device.advance(ProbeEvent::DeviceRefused);
    assert_eq!(refused.next(), ProbeAction::Fail { failure: Failure::CreateDevice });
    assert_eq!(Failure::CreateDevice.message(), "D3D11CreateDeviceAndSwapChain failed");
    let bare = device.advance(ProbeEvent::DeviceCreated { has_swap_chain: false });
    assert_eq!(bare.next(), ProbeAction::Fail { failure: Failure::NoSwapChain });
    assert_eq!(bare.advance(ProbeEvent::WindowDestroyed), bare);
}

#[test]
fn lookup_ignores_unasked_answers() {
    let probe = get_present_addr().advance(ProbeEvent::WindowDestroyed);
    assert_eq!(probe, PresentProbe::FindingInstance);
}
