[package]
name = "lingodesk"
version = "0.1.0"
edition = "2021"
publish = false

[dependencies]
html-escape = "0.2"
serde = { version = "1", features = ["derive"] }
reqwest = { version = "0.12", default-features = false, features = ["blocking", "json"] }
winput = "0.2"
windows = { version = "0.61", features = ["Win32_Foundation", "Win32_System_Com", "Win32_System_DataExchange", "Win32_System_Memory", "Win32_System_Ole", "Win32_UI_WindowsAndMessaging"] }

[dev-dependencies]
serde_json = "1"
