[package]
name = "babble"
version = "0.1.0"
edition = "2021"
publish = false

[dependencies]
ringbuf = "0.4"
crossbeam-channel = "0.5"
parking_lot = "0.12"
uuid = { version = "1", features = ["v4"] }
serde = { version = "1", features = ["derive"] }
toml = "0.8"
thiserror = "1"
tracing = "0.1"
tracing-subscriber = { version = "0.3", features = ["env-filter"] }
hound = "3.5"
rubato = "0.15"
dirs = "5"
cpal = "0.15"
egui = "0.29"
image = { version = "0.25", default-features = false, features = ["png"] }
