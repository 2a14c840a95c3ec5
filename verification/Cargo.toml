[package]
name = "gacha_stats"
version = "0.1.0"
edition = "2021"
publish = false

[dependencies]
eframe = { version = "0.29", default-features = false, features = ["glow", "default_fonts", "x11"] }
egui = "0.29"
egui_plot = "0.29"
tokio = { version = "1", features = ["rt-multi-thread", "time"] }
tracing = "0.1"
