[package]
name = "minimize_ytm"
version = "0.1.0"
edition = "2021"
publish = false

[dependencies]
thiserror = "2"

[dependencies.windows]
version = "0.61"
features = [
    "Foundation",
    "Foundation_Collections",
    "Media_Control",
    "Storage_Streams",
    "Data_Xml_Dom",
    "UI_Notifications",
    "Win32_Foundation",
    "Win32_Graphics_Gdi",
    "Win32_Storage_EnhancedStorage",
    "Win32_System_Com",
    "Win32_System_Com_StructuredStorage",
    "Win32_System_Variant",
    "Win32_UI_Input_KeyboardAndMouse",
    "Win32_UI_Shell",
    "Win32_UI_Shell_PropertiesSystem",
    "Win32_UI_WindowsAndMessaging",
]
