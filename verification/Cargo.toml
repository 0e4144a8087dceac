[package]
name = "todo_api"
version = "0.1.0"
edition = "2021"
publish = false

[dependencies]
mobc = "=0.9.0"
mobc-postgres = "=0.9.0"
serde = "=1.0.229"
serde_derive = "=1.0.229"
tokio = { version = "=1.53.2", features = ["macros", "rt-multi-thread"] }
tokio-postgres = "=0.7.18"
warp = { version = "=0.4.3", features = ["server"] }
