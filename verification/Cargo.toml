[package]
name = "shimmie_bot"
version = "0.1.0"
edition = "2021"
publish = false

[dependencies]
diesel = { version = "2", features = ["sqlite", "r2d2", "returning_clauses_for_sqlite_3_35"] }
dotenvy = "0.15"
mime = "0.3"
mime_guess = "2"
mime_serde_shim = "0.2"
serde = { version = "1", features = ["derive"] }
serde_json = "1"
serenity = "0.12"
tokio = { version = "1", features = ["full"] }
