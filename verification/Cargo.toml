[package]
name = "volume"
version = "0.1.0"
edition = "2021"
publish = false

[dependencies]
windows = { version = "=0.56.0", features = ["Win32_Devices_FunctionDiscovery", "Win32_Foundation", "Win32_Media_Audio", "Win32_Media_Audio_Endpoints", "Win32_System_Com", "Win32_System_Com_StructuredStorage", "Win32_System_Variant", "Win32_UI_Shell_PropertiesSystem"] }
