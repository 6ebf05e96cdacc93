[package]
name = "process_panel"
version = "0.1.0"
edition = "2021"
publish = false

[dependencies]
tui = { version = "0.8", default-features = false }
unicode-segmentation = "1.6"
unicode-width = "0.1"
