[package]
name = "rinha_de_backend"
version = "0.1.0"
edition = "2021"
publish = false

[dependencies]
config = { version = "*", default-features = false }
serde = { version = "*", features = ["derive"] }
serde_json = "*"
time = { version = "*", features = ["parsing", "formatting"] }
uuid = { version = "*", features = ["serde", "v4"] }
log = "*"
env_logger = "*"
tokio = { version = "*", features = ["macros", "rt-multi-thread", "sync", "time"] }
actix-web = { version = "*", default-features = false, features = ["macros"] }
reqwest = { version = "*", default-features = false, features = ["json"] }
redis = { version = "*", features = ["tokio-comp"] }
