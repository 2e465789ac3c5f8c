[package]
name = "auth_policy"
version = "0.1.0"
edition = "2021"
publish = false

[dependencies]
sha2 = "0.10"
base64 = "0.22"
axum = { version = "*", default-features = false }
chrono = { version = "*", default-features = false }
cookie = "*"
libsql = { version = "*", default-features = false, features = ["core"] }
log = "0.4"
tower-cookies = "*"
uuid = "1"
