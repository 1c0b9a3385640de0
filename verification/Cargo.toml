[package]
name = "mars_data"
version = "0.1.0"
edition = "2021"
publish = false

[dependencies]
arrayvec = { version = "*", features = ["serde"] }
astro = "*"
axum = "*"
chrono = { version = "*", features = ["serde"] }
jiff = "*"
reqwest = { version = "*", features = ["json", "gzip"] }
serde = { version = "*", features = ["derive"] }
serde_json = "*"
tokio = { version = "*", features = ["full"] }
toml = "*"
tracing = "*"
tracing-subscriber = "*"
