[package]
name = "toolchanger_utils"
version = "0.1.0"
edition = "2021"
publish = false

[dependencies]
serde = { version = "1", features = ["derive"] }
serde_json = "1"
toml = "0.8"
anyhow = "1"
tracing = "0.1"
tracing-subscriber = { version = "0.3", default-features = false, features = ["fmt", "std"] }
tokio = { version = "1", features = ["rt-multi-thread", "sync", "time", "macros", "net"] }
tokio-tungstenite = "*"
futures-util = "0.3"
url = "2"
crossbeam-channel = "0.5"
chrono = { version = "0.4", default-features = false, features = ["std", "alloc"] }
egui = "*"
eframe = { version = "*", default-features = false, features = ["default_fonts", "glow", "x11"] }
egui_extras = "*"
egui_inbox = "*"
image = { version = "0.25", default-features = false, features = ["jpeg"] }
nokhwa = { version = "*", default-features = false, features = ["input-native"] }
num-traits = "0.2"
