[package]
name = "selenium_loop"
version = "0.1.0"
edition = "2021"
publish = false

[dependencies]
anyhow = "1"
askama = "0.12"
axum = { version = "0.6", features = ["macros"] }
axum-extra = { version = "0.8", features = ["form"] }
axum-htmx = "0.4"
chrono = "0.4"
http = "0.2"
include_dir = "0.7"
mime_guess = "2"
serde = { version = "1", features = ["derive"] }
serde_derive = "1"
serde_json = "1"
thiserror = "1"
tokio = { version = "1", features = ["macros", "rt-multi-thread", "signal"] }
tracing = "0.1"
tracing-subscriber = { version = "0.3", features = ["env-filter"] }
