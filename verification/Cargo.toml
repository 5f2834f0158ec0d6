[package]
name = "silicon_briefcase"
version = "0.1.0"
edition = "2021"
publish = false

[dependencies]
anyhow = "=1.0.104"
async-trait = "=0.1.92"
base64 = "=0.22.1"
hex = "=0.4.3"
secrecy = "=0.10.3"
serde = { version = "=1.0.229", features = ["derive"] }
serde_json = "=1.0.154"
sha2 = "=0.10.9"
sqlx = { version = "=0.8.6", default-features = false, features = ["postgres", "runtime-tokio", "uuid", "time", "json", "macros", "migrate"] }
subtle = "=2.6.1"
thiserror = "=2.0.21"
time = { version = "=0.3.55", features = ["formatting", "parsing", "serde", "macros"] }
tokio = { version = "=1.54.1", features = ["time", "macros", "rt"] }
tracing = "=0.1.44"
uuid = { version = "=1.29.0", features = ["v4", "v7", "serde"] }
