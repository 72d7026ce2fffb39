[package]
name = "campus_login"
version = "0.1.0"
edition = "2021"
publish = false

[dependencies]
serde = { version = "1", features = ["derive"] }
toml = "0.8"
tokio = { version = "1", features = ["full"] }
tokio-util = "0.7"
reqwest = { version = "0.12", default-features = false, features = ["rustls-tls", "stream"] }
thirtyfour = "*"
clap = { version = "4", features = ["derive"] }
thiserror = "*"
zip = { version = "*", default-features = false, features = ["deflate"] }
indicatif = "*"
futures-util = "0.3"
fs4 = "*"
tklog = "*"
anyhow = "1"
