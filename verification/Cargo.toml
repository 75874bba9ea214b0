[package]
name = "notification_agent"
version = "0.1.0"
edition = "2021"
publish = false

[dependencies]
anyhow = "1"
chrono = "0.4"
env_logger = "0.11"
futures-util = "0.3"
hostname = "0.4"
log = "0.4"
rodio = "0.19"
serde_json = { version = "1", features = ["preserve_order"] }
tokio = { version = "1", features = ["macros", "net", "rt-multi-thread", "sync", "time"] }
tokio-tungstenite = "0.21"
uuid = { version = "1", features = ["v4"] }
windows = { version = "0.58", features = ["Data_Xml_Dom", "UI_Notifications", "Win32_Foundation", "Win32_UI_WindowsAndMessaging"] }
