[package]
name = "popshot"
version = "0.1.0"
edition = "2021"
publish = false

[dependencies]
uuid = { version = "1", features = ["v4"] }
image = { version = "0.25", default-features = false, features = ["png"] }
rustix = { version = "1", features = ["fs", "process"] }
url = "2"
tokio = { version = "1.48.0", features = ["full"] }
zbus = "5"
ashpd = { version = "0.12", default-features = false, features = ["tokio"] }
wayland-client = "0.31.15"
i18n-embed = { version = "0.16", features = ["desktop-requester"] }
