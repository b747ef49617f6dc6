[package]
name = "rscom"
version = "0.1.0"
edition = "2021"
publish = false

[dependencies]
eframe = { version = "0.29", default-features = false, features = ["default_fonts", "glow", "persistence", "x11"] }
egui = "0.29"
serde = { version = "1", features = ["derive"] }
thiserror = "1"
tokio = { version = "1", features = ["rt"] }
tokio-serial = "5.4"
