[package]
name = "rd_fly"
version = "0.1.0"
edition = "2021"
publish = false

[dependencies]
argh = "*"
dear-imgui-glow = "*"
dear-imgui-rs = "*"
glow = "*"
minhook = "*"
windows = { version = "*", features = ["Win32_Foundation", "Win32_System_Memory", "Win32_System_LibraryLoader", "Win32_System_SystemServices", "Win32_System_Diagnostics_Debug", "Win32_System_Diagnostics_ToolHelp", "Win32_System_Threading", "Win32_UI_Input_KeyboardAndMouse", "Win32_UI_WindowsAndMessaging", "Win32_Graphics_Gdi", "Win32_Graphics_OpenGL"] }
