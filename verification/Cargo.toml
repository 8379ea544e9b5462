[package]
name = "netguard"
version = "0.1.0"
edition = "2021"
publish = false

[dependencies]
chrono = "0.4"
regex = "1"
serde = { version = "1", features = ["derive"] }
serde_json = "1"
uuid = { version = "1", features = ["v4"] }
sysinfo = { version = "*", default-features = false, features = ["system"] }
winreg = "*"
printpdf = { version = "0.7", default-features = false }
tokio = { version = "1", features = ["time"] }
windows = { version = "*", features = ["Win32_Foundation", "Win32_Security_WinTrust"] }
