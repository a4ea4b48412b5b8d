[package]
name = "gray_mirror"
version = "0.1.0"
edition = "2021"
publish = false

[dependencies]
url = "=2.5.8"
grammers-client = { version = "=0.7.0", features = ["parse_invite_link", "proxy"] }
sea-orm = { version = "=1.1.20", default-features = false, features = ["sqlx-postgres", "runtime-tokio-rustls", "macros"] }
tokio = { version = "=1.53.2", features = ["rt-multi-thread", "macros", "sync", "time"] }
anyhow = "=1.0.104"
async-trait = "=0.1.92"
chrono = "=0.4.45"
serde = { version = "=1.0.229", features = ["derive"] }
serde_json = "=1.0.151"
tracing = "=0.1.44"
tracing-subscriber = "=0.3.23"
rpassword = "=7.5.4"
