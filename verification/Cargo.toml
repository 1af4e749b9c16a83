[package]
name = "lighthouse_control"
version = "0.1.0"
edition = "2021"
publish = false

[dependencies]
bleasy = "*"
egui = "*"
egui-macroquad = "*"
futures = "*"
macroquad = "*"
pretty_env_logger = "*"
tokio = { version = "1", features = ["macros", "rt-multi-thread", "sync", "time"] }
uuid = "*"
