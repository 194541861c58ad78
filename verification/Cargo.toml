[package]
name = "ginger_auth"
version = "0.1.0"
edition = "2021"
publish = false

[dependencies]
clap = { version = "=4.5.61", features = ["derive"] }
dirs = "=5.0.1"
inquire = "=0.7.5"
tokio = { version = "=1.53.2", features = ["macros", "rt-multi-thread"] }

[dev-dependencies]
serde_json = "=1.0.151"
