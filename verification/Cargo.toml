[package]
name = "location_pages"
version = "0.1.0"
edition = "2021"
publish = false

[dependencies]
askama = "0.13"
axum = "=0.7.9"
diesel = { version = "=2.3.14", features = ["postgres"] }
tokio = { version = "=1.54.1", features = ["macros", "net", "rt-multi-thread"] }
tower-http = { version = "=0.5.2", features = ["fs"] }
tracing = "=0.1.44"
tracing-subscriber = "=0.3.23"
