[package]
name = "app_container_tokens"
version = "0.1.0"
edition = "2021"
publish = false

[dependencies]
napi = { version = "=3.15.0", default-features = false }
napi-derive = "=3.6.13"
windows = { version = "0.59", features = ["Wdk_System_Threading", "Win32_Foundation", "Win32_Security", "Win32_Security_Isolation", "Win32_System_Diagnostics_Debug", "Win32_System_Diagnostics_ToolHelp", "Win32_System_Kernel", "Win32_System_Memory", "Win32_System_Threading"] }
