[package]
name = "playbridge"
version = "0.1.0"
edition = "2021"
publish = false

[dependencies]
image = { version = "=0.25.10", default-features = false, features = ["png"] }
chrono = "=0.4.45"
open = "=5.4.4"
spin_sleep = "=1.3.3"
windows = { version = "=0.52.0", features = ["Win32_Foundation", "Win32_Graphics_Gdi", "Win32_Storage_Xps", "Win32_UI_HiDpi", "Win32_UI_WindowsAndMessaging"] }
