[package]
name = "pokebot"
version = "0.3.0"
edition = "2021"
publish = false

[dependencies]
anyhow = "1"
async-trait = "0.1"
axum = { version = "0.8", features = ["multipart"] }
axum-extra = { version = "0.10", features = ["typed-header"] }
diesel = { version = "2.2", features = ["sqlite", "returning_clauses_for_sqlite_3_35"] }
diesel-async = { version = "0.5", features = ["sqlite", "deadpool"] }
futures = "0.3"
lofty = "0.22.4"
petname = "2.0.2"
rand = { version = "0.8.5", features = ["small_rng"] }
serde = { version = "1", features = ["derive"] }
serde_json = "1"
thiserror = "2"
tokio = { version = "1", features = ["rt-multi-thread", "macros", "fs", "io-util", "net", "process", "sync"] }
tower-cookies = "0.11"
tower-http = { version = "0.6", features = ["cors", "fs", "trace"] }
tracing = "0.1"
ts-rs = "10"
utoipa = "5"
uuid = { version = "1", features = ["v4"] }
walkdir = "2"
xtra = { version = "0.5", features = ["with-tokio-1"] }
