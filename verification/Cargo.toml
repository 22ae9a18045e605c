[package]
name = "rbar"
version = "0.1.0"
edition = "2021"
publish = false

[dependencies]
gio = "*"
gtk4 = { version = "*", features = ["v4_12"] }
gtk4-layer-shell = "*"
serde = { version = "*", features = ["derive"] }
ureq = { version = "3", features = ["json"] }
