[package]
name = "ac_trainer"
version = "0.1.0"
edition = "2021"
publish = false

[dependencies]
anyhow = "1"
windows = { version = "0.48", features = ["Win32_Foundation", "Win32_System_Console", "Win32_System_Diagnostics_Debug", "Win32_System_Diagnostics_ToolHelp", "Win32_System_LibraryLoader", "Win32_System_Threading", "Win32_UI_Input_KeyboardAndMouse", "Win32_UI_WindowsAndMessaging"] }
