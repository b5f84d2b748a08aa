[package]
name = "overlay_hook"
version = "0.1.0"
edition = "2021"
publish = false

[dependencies]
anyhow = "=1.0.104"
detour = "=0.10.0"
gl_loader = "=0.1.2"
imgui = "=0.8.2"
imgui-opengl-renderer = "=0.11.1"
windows = { version = "=0.44.0", features = ["Win32_Foundation", "Win32_Graphics_Gdi", "Win32_System_Console", "Win32_System_LibraryLoader", "Win32_System_SystemServices"] }
