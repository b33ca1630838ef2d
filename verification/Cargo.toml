[package]
name = "model_select"
version = "0.1.0"
edition = "2021"
publish = false

[dependencies]
cli-table = "*"
mathru = "*"
plotters = { version = "*", default-features = false, features = ["bitmap_backend", "bitmap_encoder", "line_series", "point_series"] }
serde = { version = "*", features = ["derive"] }
serde_json = "*"
