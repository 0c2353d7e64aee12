[package]
name = "flatterer_web"
version = "0.1.0"
edition = "2021"
publish = false

[dependencies]
libflatterer = "=0.12.10"
csv = "=1.4.0"
uuid = { version = "=1.27.0", features = ["v4"] }
serde = { version = "*", features = ["derive"] }
serde_json = "*"
zip = { version = "*", default-features = false, features = ["deflate"] }
walkdir = "*"
tempfile = "*"
actix-web = { version = "*", default-features = false, features = ["macros"] }
actix-multipart = "*"
awc = { version = "*", default-features = false }
futures-util = "*"
