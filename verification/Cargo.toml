[package]
name = "secretstore"
version = "0.1.0"
edition = "2021"
publish = false

[dependencies]
serde_json = "*"
serde_yaml = "*"
anyhow = "*"
async-trait = "*"
atty = "*"
chrono = "*"
clap = { version = "*", features = ["derive"] }
promptly = "*"
rusoto_core = { version = "*", default-features = false, features = ["rustls"] }
rusoto_secretsmanager = { version = "*", default-features = false, features = ["rustls"] }
rusoto_sts = { version = "*", default-features = false, features = ["rustls"] }
stybulate = "*"
tempfile = "*"
tokio = { version = "*", features = ["macros", "rt-multi-thread"] }
uuid = { version = "*", features = ["v4"] }
