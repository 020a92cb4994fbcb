[package]
name = "session_auth"
version = "0.1.0"
edition = "2021"
publish = false

[dependencies]
jsonwebtoken = { version = "=11.1.0", default-features = false, features = ["rust_crypto"] }
serde_json = "=1.0.151"
serde = { version = "*", features = ["derive"] }
axum = "*"
axum-extra = { version = "*", features = ["query"] }
clap = { version = "*", features = ["derive"] }
env_logger = "*"
getrandom = "*"
log = "*"
parking_lot = "*"
tokio = { version = "*", features = ["macros", "rt-multi-thread", "net", "time"] }
tower = { version = "*", features = ["timeout", "util"] }
tower-http = { version = "*", features = ["fs"] }
uuid = { version = "*", features = ["v4", "serde"] }
