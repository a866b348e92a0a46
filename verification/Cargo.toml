[package]
name = "hudhook"
version = "0.1.0"
edition = "2021"
publish = false

[dependencies]
detour = "=0.10.0"
imgui = "=0.8.2"
log = "0.4"
once_cell = "=1.21.4"
parking_lot = "=0.12.5"
windows = { version = "=0.35.0", features = ["Win32_Foundation", "Win32_Graphics_Direct3D", "Win32_Graphics_Direct3D11", "Win32_Graphics_Dxgi", "Win32_Graphics_Dxgi_Common", "Win32_Graphics_Gdi", "Win32_Security", "Win32_System_Diagnostics_Debug", "Win32_System_LibraryLoader", "Win32_System_Memory", "Win32_System_ProcessStatus", "Win32_System_Threading", "Win32_UI_WindowsAndMessaging"] }
