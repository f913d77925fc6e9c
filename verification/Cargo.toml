[package]
name = "mindone-coordinator"
version = "0.1.0"
edition = "2021"
publish = false

[dependencies]
axum = "0.8"
base64 = "0.22"
bytes = "1"
ed25519-dalek = "2"
futures-util = "0.3"
hex = "0.4"
rand = "0.8"
ring = "0.17"
serde = { version = "1", features = ["derive"] }
serde_json = "1"
sha2 = "0.10"
sqlx = { version = "0.8", default-features = false, features = ["runtime-tokio", "postgres", "uuid", "time", "json"] }
subtle = "2"
thiserror = "2"
time = { version = "0.3", features = ["formatting", "parsing", "serde"] }
tokio = { version = "1", features = ["time", "rt", "macros"] }
tracing = "0.1"
uuid = { version = "1", features = ["v4", "v7", "serde"] }
zeroize = "1"
