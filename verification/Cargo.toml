[package]
name = "clear_view"
version = "0.1.0"
edition = "2021"
publish = false

[dependencies]
parking_lot = "0.12"
crossbeam-channel = "0.5"
pollster = "0.3"
raw-window-handle = "0.6"
wgpu = { version = "22", default-features = false, features = ["wgsl", "dx12"] }
egui = { version = "0.29", default-features = false, features = ["default_fonts"] }
eframe = { version = "0.29", default-features = false, features = ["default_fonts", "glow", "x11"] }
windows = { version = "0.52", features = [
    "implement",
    "Win32_Foundation",
    "Win32_Graphics_Direct3D",
    "Win32_Graphics_Direct3D11",
    "Win32_Graphics_Direct3D_Fxc",
    "Win32_Graphics_Dxgi",
    "Win32_Graphics_Dxgi_Common",
    "Win32_Graphics_Gdi",
    "Win32_Media_Speech",
    "Win32_System_Com",
    "Win32_System_LibraryLoader",
    "Win32_System_Ole",
    "Win32_System_Variant",
    "Win32_UI_Accessibility",
    "Win32_UI_HiDpi",
    "Win32_UI_Input_KeyboardAndMouse",
    "Win32_UI_Shell",
    "Win32_UI_WindowsAndMessaging",
] }
