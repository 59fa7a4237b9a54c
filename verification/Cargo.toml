[package]
name = "quietbackend"
version = "0.1.0"
edition = "2021"
publish = false

[dependencies]
actix-rt = "1"
actix-service = "1"
actix-web = { version = "3", default-features = false }
anyhow = "1"
async-trait = "0.1"
chrono = { version = "0.4", features = ["serde"] }
diesel = { version = "1.4", features = ["postgres", "r2d2", "uuidv07", "chrono"] }
diesel-derive-enum = { version = "0.4", features = ["postgres"] }
futures = "0.3"
guard = "0.5"
lazy_static = "1"
prometheus = "0.13"
serde = { version = "1", features = ["derive"] }
serde_json = "1"
toml = "0.5"
tracing = "0.1"
tracing-subscriber = { version = "0.3", features = ["json"] }
uuid = { version = "0.8", features = ["serde", "v4"] }
