[package]
name = "lochstep"
version = "0.1.0"
edition = "2021"
publish = false

[dependencies]
anyhow = "=1.0.104"
argon2 = "=0.5.3"
axum = "=0.6.20"
axum-sessions = "=0.5.0"
chrono = "=0.4.45"
dotenv = "=0.15.0"
http = "=0.2.12"
hyper = "=0.14.32"
libsql-client = "=0.33.4"
log = "=0.4.34"
rand = "=0.8.8"
serde = { version = "=1.0.229", features = ["derive"] }
serde_json = "=1.0.154"
simple_logger = "=4.3.3"
tera = "=1.20.1"
tokio = { version = "=1.54.1", features = ["macros", "rt-multi-thread"] }
tower-http = { version = "=0.4.4", features = ["fs"] }
url = "=2.5.8"
uuid = { version = "=1.29.0", features = ["v4", "serde"] }
webauthn-rs = { version = "=0.4.8", features = ["danger-allow-state-serialisation", "danger-credential-internals", "resident-key-support"] }
