[package]
name = "ojt_timesheet"
version = "0.1.0"
edition = "2021"
publish = false

[dependencies]
chrono = { version = "=0.4.45", default-features = false, features = ["std"] }
pdfium-render = "=0.8.37"
eframe = { version = "0.24", default-features = false, features = ["glow"] }
egui = "0.24"
