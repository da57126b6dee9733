[package]
name = "tgws_launcher"
version = "0.1.0"
edition = "2021"
publish = false

[dependencies]
hex = "0.4"
rand = "0.8"
serde = { version = "1", features = ["derive"] }
toml = "0.8"
tokio = { version = "1", features = ["rt-multi-thread", "macros", "net", "signal"] }
tokio-util = "0.7"
once_cell = "1"
parking_lot = "0.12"
eframe = { version = "0.29", default-features = false, features = ["default_fonts", "glow"] }
tray-icon = { version = "0.19", default-features = false }
windows-service = "0.7"
