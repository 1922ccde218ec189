[package]
name = "buttplug"
version = "0.1.0"
edition = "2021"
publish = false

[dependencies]
byteorder = "=1.5.0"
dashmap = "=5.5.3"
serde = { version = "=1.0.229", features = ["derive"] }
serde-aux = "4"
serde_json = "=1.0.154"
serde_repr = "=0.1.21"
tokio = { version = "=1.54.1", features = ["sync", "rt", "macros", "time"] }
uuid = { version = "=1.29.0", features = ["serde"] }
