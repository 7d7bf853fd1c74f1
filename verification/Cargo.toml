[package]
name = "razerctl"
version = "0.1.0"
edition = "2021"
publish = false

[dependencies]
windows = { version = "0.58", features = ["Wdk_Foundation", "Wdk_Storage_FileSystem", "Wdk_System_SystemServices", "Win32_Foundation", "Win32_Security", "Win32_Storage_FileSystem", "Win32_System_IO", "Win32_System_Kernel"] }
