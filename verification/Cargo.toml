[package]
name = "hw-monitor-alignment"
version = "0.1.0"
edition = "2021"
publish = false

[dependencies]
hashbrown = "*"
windows = { version = "*", features = ["Win32_Foundation", "Win32_Graphics_Gdi", "Win32_Devices_Display", "Win32_UI_WindowsAndMessaging", "Win32_UI_Input_KeyboardAndMouse", "Win32_UI_HiDpi", "Win32_System_LibraryLoader"] }
windows-core = "*"
windows-reactor = "*"
