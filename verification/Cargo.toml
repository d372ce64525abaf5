[package]
name = "myowndesk"
version = "0.1.0"
edition = "2021"
publish = false

[dependencies]
anyhow = "1"
bytes = "1"
constant_time_eq = "0.3"
hex = "0.4"
minifb = { version = "*", default-features = false, features = ["x11"] }
openh264 = "*"
prost = "0.13"
quinn = "0.11"
rand = "0.8"
rcgen = "0.13"
ring = "0.17"
rustls = { version = "0.23", default-features = false, features = ["ring", "std", "tls12", "logging"] }
serde = { version = "1", features = ["derive"] }
tokio = { version = "1", features = ["rt-multi-thread", "macros", "net", "time", "sync", "signal", "io-util"] }
toml = "0.8"
tracing = "0.1"
tracing-subscriber = "0.3"
windows = { version = "0.58", features = ["Win32_Foundation", "Win32_Graphics_Direct3D", "Win32_Graphics_Direct3D11", "Win32_Graphics_Dxgi", "Win32_Graphics_Dxgi_Common", "Win32_UI_Input_KeyboardAndMouse", "Win32_UI_WindowsAndMessaging"] }
