[package]
name = "chat_room"
version = "0.1.0"
edition = "2021"
publish = false

[dependencies]
uuid = { version = "=1.29.0", features = ["v4", "v7"] }
chrono = { version = "=0.4.45", default-features = false, features = ["clock", "std"] }
async-graphql = { version = "=7.2.1", features = ["uuid", "chrono"] }
async-graphql-axum = "=7.2.1"
axum = "=0.8.9"
tokio = { version = "=1.54.1", features = ["macros", "rt-multi-thread", "sync", "net"] }
tokio-stream = { version = "=0.1.19", features = ["sync"] }
futures-util = "=0.3.34"
moka = { version = "=0.12.16", features = ["future"] }
tracing = "=0.1.44"
tracing-subscriber = { version = "=0.3.23", features = ["env-filter"] }
dotenvy = "=0.15.7"
sea-orm = { version = "=1.1.20", default-features = false, features = ["macros", "with-uuid", "with-chrono", "runtime-tokio-rustls", "sqlx-sqlite"] }
sea-orm-migration = { version = "=1.1.20", default-features = false, features = ["runtime-tokio-rustls", "sqlx-sqlite"] }
async-trait = "=0.1.92"
