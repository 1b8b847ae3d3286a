[package]
name = "cua"
version = "0.1.0"
edition = "2021"
publish = false

[dependencies]
bcder = "=0.7.7"
bytes = "=1.12.1"
uuid = "=1.27.0"
x509-certificate = "=0.25.0"
tokio = { version = "=1.53.2", features = ["rt-multi-thread", "time", "macros"] }
tracing = "=0.1.44"
tracing-appender = "=0.2.5"
tracing-subscriber = { version = "=0.3.23", features = ["fmt", "json"] }
windows = { version = "=0.61.3", features = ["Win32_System_EventLog", "Win32_Foundation", "Win32_Security", "Win32_Security_Authorization", "Win32_Security_Authentication_Identity", "Win32_System_RemoteDesktop", "Win32_Globalization"] }
windows-registry = "=0.100.0"
windows-service = "=0.8.1"
