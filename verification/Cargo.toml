[package]
name = "testaustime"
version = "0.1.0"
edition = "2021"
publish = false

[dependencies]
regex = "=1.13.1"
rand = "=0.9.5"
argon2 = { version = "=0.5.3", features = ["std"] }
lettre = { version = "=0.11.23", default-features = false, features = ["builder", "smtp-transport", "tokio1"] }
axum = "=0.8.9"
tokio = { version = "=1.54.1", features = ["full"] }
tower = "=0.5.3"
tower-http = { version = "=0.6.11", features = ["trace"] }
http = "=1.5.0"
futures-util = "=0.3.34"
serde = { version = "=1.0.229", features = ["derive"] }
serde_json = "=1.0.154"
toml = "=0.8.23"
chrono = { version = "=0.4.45", features = ["serde"] }
dashmap = "=6.2.1"
governor = "=0.8.1"
diesel = { version = "=2.2.12", default-features = false, features = ["postgres_backend", "chrono"] }
diesel-async = { version = "=0.5.2", features = ["postgres", "deadpool"] }
thiserror = "=2.0.21"
tracing = "=0.1.44"
tracing-subscriber = { version = "=0.3.23", features = ["env-filter"] }
dotenv = "=0.15.0"
