[package]
name = "crewlist"
version = "0.1.0"
edition = "2021"
publish = false

[dependencies]
chrono = { version = "0.4", features = ["serde"] }
serde = { version = "1", features = ["derive"] }
thiserror = "2"
anyhow = "1"
async-trait = "0.1"
axum = "0.8"
tokio = { version = "1", features = ["macros", "rt-multi-thread", "net", "signal"] }
tower-http = { version = "0.6", features = ["trace"] }
tracing = "0.1"
tracing-subscriber = { version = "0.3", features = ["env-filter", "fmt"] }
dotenvy = "0.15"
sqlx = { version = "0.8", default-features = false, features = ["postgres", "runtime-tokio", "migrate"] }
mongodb = { version = "3", default-features = false, features = ["compat-3-0-0", "rustls-tls"] }
