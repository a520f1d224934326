[package]
name = "mission_chat"
version = "0.1.0"
edition = "2021"
publish = false

[dependencies]
tokio = { version = "=1.53.2", features = ["sync", "rt-multi-thread", "time", "macros"] }
chrono = "=0.4.45"
diesel = { version = "=2.3.14", features = ["postgres", "r2d2"] }
axum = { version = "=0.8.9", features = ["ws"] }
futures = "=0.3.34"
async-trait = "=0.1.92"
dotenvy = "=0.15.7"
tracing = "0.1"
tracing-subscriber = "0.3"

[dev-dependencies]
serde_json = "=1.0.151"
