[package]
name = "squeak"
version = "0.1.0"
edition = "2021"
publish = false

[dependencies]
windows-sys = { version = "*", features = ["Win32_Devices_DeviceAndDriverInstallation", "Win32_Devices_HumanInterfaceDevice", "Win32_Foundation", "Win32_Security", "Win32_Storage_FileSystem", "Win32_System_IO", "Win32_System_SystemInformation", "Win32_System_Threading"] }
