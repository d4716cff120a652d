[package]
name = "wfp"
version = "0.1.0"
edition = "2021"
publish = false

[dependencies]
log = "=0.4.34"

[dependencies.windows-sys]
version = "=0.61.2"
features = [
    "Win32_Foundation",
    "Win32_NetworkManagement_WindowsFilteringPlatform",
    "Win32_Security",
    "Win32_System_Rpc",
]
