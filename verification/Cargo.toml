[package]
name = "tauri-plugin-video"
version = "0.1.0"
edition = "2021"
publish = false

[dependencies]
gio = "=0.20.12"
gstreamer = "=0.23.7"
gtk = "=0.18.2"
libc = "0.2"
libmpv2 = "=5.0.3"
parking_lot = "=0.12.5"
serde = { version = "=1.0.229", features = ["derive"] }
tauri = { version = "=2.12.5", default-features = false }
tracing = "=0.1.44"
windows = { version = "=0.62.2", features = ["Win32_Foundation", "Win32_Graphics_Direct3D11", "Win32_Graphics_Dxgi", "Win32_Graphics_Dxgi_Common"] }
