[package]
name = "lexi"
version = "0.1.0"
edition = "2021"
publish = false

[dependencies]
anyhow = "=1.0.104"
async-openai = { version = "=0.28.3", default-features = false, features = ["rustls"] }
chrono = { version = "=0.4.45", features = ["serde"] }
clap = { version = "=4.6.7", features = ["derive"] }
croner = "=2.2.0"
dotenv = "=0.15.0"
pulldown-cmark = { version = "=0.13.6", default-features = false }
reqwest = { version = "=0.12.28", default-features = false, features = ["json", "rustls-tls"] }
serde = { version = "=1.0.229", features = ["derive"] }
serde_json = "=1.0.154"
sqlx = { version = "=0.8.6", default-features = false, features = ["runtime-tokio", "postgres", "chrono", "json", "bigdecimal", "migrate", "macros"] }
tokio = { version = "=1.54.1", features = ["macros", "rt-multi-thread", "time", "sync", "signal"] }
tracing = "=0.1.44"
tracing-subscriber = { version = "=0.3.23", features = ["env-filter", "json"] }
