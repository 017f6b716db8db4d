[package]
name = "git_matrix"
version = "0.1.0"
edition = "2021"
publish = false

[dependencies]
url = "=2.5.8"
serde = { version = "=1.0.229", features = ["derive"] }
serde_json = "=1.0.151"
git2 = "=0.21.0"
ruma-client = "=0.3.0"
ruma-api = "=0.13.1"
tokio = { version = "=1.53.2", features = ["macros", "rt-multi-thread"] }
futures-util = "=0.3.34"
uuid = { version = "=1.27.0", features = ["v4"] }
