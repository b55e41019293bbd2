[package]
name = "flared"
version = "0.1.0"
edition = "2021"
publish = false

[dependencies]
anyhow = "=1.0.104"
argon2 = { version = "=0.5.3", features = ["std"] }
axum = "=0.7.9"
chrono = "=0.4.45"
clap = { version = "=4.6.7", features = ["derive"] }
dirs = "=5.0.1"
flate2 = "=1.1.10"
hex = "=0.4.3"
rand = "=0.8.8"
rcgen = "=0.13.2"
reqwest = { version = "=0.12.28", default-features = false, features = ["rustls-tls"] }
rpassword = "=7.5.4"
rustls = { version = "=0.23.45", default-features = false, features = ["ring", "std", "tls12", "logging"] }
rustls-pemfile = "=2.2.0"
serde = { version = "=1.0.229", features = ["derive"] }
serde_json = "=1.0.151"
tar = "=0.4.46"
tokio = { version = "=1.53.2", features = ["full"] }
tokio-rustls = { version = "=0.26.6", default-features = false, features = ["ring", "tls12", "logging"] }
toml = "=0.8.23"
tower = { version = "=0.4.13", features = ["util"] }
tower-http = { version = "=0.5.2", features = ["fs"] }
tracing = "=0.1.44"
tracing-subscriber = { version = "=0.3.23", features = ["env-filter"] }
webpki-roots = "=0.26.11"
