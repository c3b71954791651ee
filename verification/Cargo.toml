[package]
name = "keys"
version = "0.1.0"
edition = "2021"
publish = false

[dependencies]
anyhow = "=1.0.104"
log = "=0.4.34"
env_logger = { version = "=0.10.2", default-features = false }
rdev = { version = "=0.5.3", features = ["unstable_grab"] }
tao = { version = "=0.37.2", default-features = false }
tray-icon = { version = "=0.26.1", default-features = false }
windows = { version = "=0.48.0", features = ["Win32_Foundation", "Win32_Graphics_Gdi", "Win32_System_LibraryLoader", "Win32_UI_Input_KeyboardAndMouse", "Win32_UI_Shell", "Win32_UI_WindowsAndMessaging"] }
