[package]
name = "openwork_core"
version = "0.1.0"
edition = "2021"
publish = false

[dependencies]
base64 = "0.22"
image = { version = "0.25", default-features = false, features = ["png"] }
notify = "6"
qrcode = { version = "0.14", default-features = false, features = ["image"] }
serde = { version = "1", features = ["derive"] }
serde_json = "1"
ureq = { version = "2", default-features = false }
uuid = { version = "1", features = ["v4"] }
