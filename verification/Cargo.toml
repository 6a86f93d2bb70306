[package]
name = "dxfilter"
version = "0.1.0"
edition = "2021"
publish = false

[dependencies]
win_desktop_duplication = "=0.10.11"
windows = { version = "=0.57.0", features = ["Win32_Foundation", "Win32_Graphics_Direct3D", "Win32_Graphics_Direct3D11", "Win32_Graphics_Dxgi_Common", "Win32_Graphics_Dxgi"] }
