[package]
name = "winit_integration"
version = "0.1.0"
edition = "2021"
publish = false

[dependencies]
egui = { version = "0.29", default-features = false, features = ["accesskit", "persistence"] }
egui-winit = { version = "0.29", default-features = false, features = ["accesskit", "x11"] }
winit = { version = "0.30", default-features = false, features = ["rwh_06", "x11"] }
ron = "0.8"
