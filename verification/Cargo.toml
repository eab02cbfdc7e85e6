[package]
name = "gerador"
version = "0.1.0"
edition = "2021"
publish = false

[dependencies]
ttf-parser = "*"
tiny-skia = "*"
resvg = "*"
usvg = "*"
serde = { version = "*", features = ["derive"] }
serde_json = "*"
rayon = "*"
image = { version = "*", default-features = false, features = ["png", "jpeg"] }
