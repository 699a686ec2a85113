[package]
name = "blog_auth_core"
version = "0.1.0"
edition = "2021"
publish = false

[dependencies]
pbkdf2 = { version = "0.12", features = ["simple"] }
rand_core = { version = "0.6", features = ["getrandom"] }
nanoid = "0.4"
rocket = { version = "0.5", features = ["json"] }
serde_json = "*"
tokio-postgres = "*"
deadpool-postgres = "*"
postgres-types = "*"
dotenv = "*"
