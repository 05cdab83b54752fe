[package]
name = "tensaku"
version = "0.1.0"
edition = "2021"
publish = false

[dependencies]
anyhow = "=1.0.104"
chrono = "=0.4.45"
femtovg = "=0.28.0"
hex_color = { version = "=3.0.0", features = ["serde"] }
keycode = "=1.0.0"
relm4 = "=0.11.0"
serde = { version = "=1.0.229", features = ["derive"] }
toml = "=1.1.8"
toml_edit = "=0.25.17"
xdg = "=3.0.0"
