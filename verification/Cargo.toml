[package]
name = "gartk"
version = "0.1.0"
edition = "2021"
publish = false

[dependencies]
x11rb = { version = "0.13", features = ["randr"] }
serde = { version = "1", features = ["derive"] }
thiserror = "1"
tracing = "0.1"
cairo-rs = "*"
pango = "*"
pangocairo = "*"
