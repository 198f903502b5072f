[package]
name = "txtdot"
version = "2.0.0"
edition = "2021"
publish = false

[dependencies]
axum = { version = "0.8", default-features = false, features = ["json", "query", "http1", "tokio"] }
base64 = "0.22"
dalet = "=1.0.0-pre.34"
dotenvy = "0.15"
drova_plugins = "3"
drova_sdk = "3"
image = { version = "0.25", default-features = false, features = ["avif", "png", "jpeg", "gif", "webp"] }
lol_html = "2"
reqwest = { version = "0.12", default-features = false, features = ["rustls-tls"] }
serde = { version = "1", features = ["derive"] }
serde_json = "1"
tera = "1"
tokio = { version = "1", features = ["macros", "rt-multi-thread", "net", "signal"] }
tower-http = { version = "0.6", features = ["fs", "trace"] }
tracing = "0.1"
tracing-subscriber = { version = "0.3", default-features = false, features = ["env-filter", "fmt", "std", "ansi"] }
url = "2"
