[package]
name = "medit"
version = "0.1.0"
edition = "2021"
publish = false

[dependencies]
pulldown-cmark = { version = "=0.9.6", default-features = false }
egui_code_editor = "=0.2.27"
egui_file = "=0.16.3"
env_logger = { version = "=0.10.2", default-features = false }
