[package]
name = "rusty_duplication"
version = "0.1.0"
edition = "2021"
publish = false

[dependencies]
windows = { version = "0.48", features = [
    "Win32_Foundation",
    "Win32_Graphics_Direct3D11",
    "Win32_Graphics_Dxgi",
    "Win32_Graphics_Dxgi_Common",
    "Win32_Graphics_Gdi",
    "Win32_UI_HiDpi",
] }
