[package]
name = "tauri_plugin_egui"
version = "0.1.0"
edition = "2021"
publish = false

[dependencies]
egui = "*"
anyhow = "*"
parking_lot = "*"
