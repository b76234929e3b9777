[package]
name = "winlog"
version = "0.1.0"
edition = "2021"
publish = false

[dependencies]
log = { version = "=0.4.34", features = ["std"] }
registry = "=1.3.0"
windows = { version = "=0.52.0", features = ["Win32_Foundation", "Win32_System_EventLog"] }
