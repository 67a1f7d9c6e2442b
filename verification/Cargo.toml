[package]
name = "mb_tray"
version = "0.1.0"
edition = "2021"
publish = false

[dependencies]
reqwest = "=0.12.28"
serde = { version = "=1.0.229", features = ["derive"] }
serde_json = "=1.0.154"
thiserror = "=2.0.21"
figment = { version = "=0.10.19", features = ["toml"] }
directories = "=5.0.1"
tokio = { version = "=1.54.1", features = ["rt", "time", "macros"] }
tracing = "=0.1.44"
tracing-subscriber = { version = "=0.3.23", features = ["env-filter"] }
image = { version = "=0.25.10", default-features = false, features = ["png"] }
objc2 = "0.6"
objc2-app-kit = { version = "0.3", default-features = false, features = ["std", "NSApplication", "NSResponder", "NSRunningApplication"] }
