[package]
name = "synthehol"
version = "0.1.0"
edition = "2021"
publish = false

[dependencies]
toml = "0.8"
upon = "0.8"
gethostname = "0.4"
serde = { version = "1", features = ["derive"] }
serde_json = "1"
tokio = { version = "1", features = ["full"] }
tokio-util = { version = "0.7", features = ["rt"] }
tokio-rusqlite = "0.5"
reqwest = { version = "0.12", default-features = false, features = ["json"] }
sqlx = { version = "0.7", default-features = false, features = ["postgres", "runtime-tokio"] }
clap = { version = "4", features = ["derive"] }
tracing = "0.1"
tracing-subscriber = "0.3"
async-trait = "0.1"
