[package]
name = "cmux"
version = "0.1.0"
edition = "2021"
publish = false

[dependencies]
gtk4 = "*"
gdk4-x11 = "*"
x11 = { version = "*", features = ["xlib"] }
serde = { version = "1", features = ["derive"] }
serde_json = "1"
toml = "*"
tokio = { version = "1", features = ["rt", "sync"] }
uuid = { version = "1", features = ["v4", "serde"] }
