[package]
name = "auto_backup"
version = "0.1.0"
edition = "2021"
publish = false

[dependencies]
chrono = "0.4"
cron = "0.12"
uuid = { version = "1", features = ["v4"] }
serde = { version = "1", features = ["derive"] }
serde_json = "1"
fs-more = "0.2"
egui = "0.27"
egui_extras = { version = "0.27", features = ["image"] }
egui-notify = "0.14"
image = { version = "0.24", default-features = false, features = ["png"] }
open = "5"
