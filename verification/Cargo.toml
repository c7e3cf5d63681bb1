[package]
name = "no_sleep_till_brooklyn"
version = "0.1.0"
edition = "2021"
publish = false

[dependencies]
native-windows-gui = "1.0.13"
native-windows-derive = "1.0.5"
windows = { version = "0.58", features = ["Win32_Foundation", "Win32_Security", "Win32_System_Power", "Win32_System_Threading", "Win32_UI_Input_KeyboardAndMouse", "Win32_UI_WindowsAndMessaging"] }
