[package]
name = "memd"
version = "0.1.0"
edition = "2021"
publish = false

[dependencies]
chrono = "0.4"
rusqlite = { version = "*", features = ["bundled"] }
clap = { version = "4", features = ["derive"] }
rmcp = { version = "*", features = ["server", "macros", "transport-io"] }
tokio = { version = "1", features = ["macros", "rt-multi-thread", "io-std"] }
serde = { version = "1", features = ["derive"] }
schemars = "1"
anyhow = "1"
