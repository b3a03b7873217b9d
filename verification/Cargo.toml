[package]
name = "uchat"
version = "0.1.0"
edition = "2021"
publish = false

[dependencies]
regex = "=1.13.1"
argon2 = "=0.5.3"
password-hash = { version = "=0.5.0", features = ["rand_core", "getrandom"] }
base64 = "=0.22.1"
chrono = "=0.4.45"
serde = { version = "=1.0.229", features = ["derive"] }
thiserror = "=2.0.21"
tokio = { version = "=1.54.1", features = ["fs", "rt-multi-thread", "macros"] }
uuid = { version = "=1.29.1", features = ["v4", "serde"] }
axum = "=0.8.9"
diesel = { version = "=2.3.14", features = ["postgres"] }
indexmap = "2"
url = "2"

[dev-dependencies]
nutype = "=0.8.0"
