[package]
name = "umpv"
version = "0.1.0"
edition = "2021"
publish = false

[dependencies]
windows-registry = "*"

[dependencies.windows-sys]
version = "*"
features = [
    "Win32_Foundation",
    "Win32_Security",
    "Win32_Storage_FileSystem",
    "Win32_System_Pipes",
    "Win32_System_RemoteDesktop",
    "Win32_System_Threading",
    "Win32_UI_Shell",
    "Win32_UI_WindowsAndMessaging",
]
