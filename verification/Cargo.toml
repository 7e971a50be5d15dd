[package]
name = "klip"
version = "0.1.0"
edition = "2021"
publish = false

[dependencies]
arboard = { version = "*", default-features = false }
clap = { version = "*", features = ["derive"] }
rmcp = { version = "*", features = ["server", "macros", "transport-io"] }
schemars = "*"
serde = { version = "*", features = ["derive"] }
thiserror = "*"
tokio = { version = "*", features = ["macros", "rt-multi-thread", "io-std"] }
tracing = "*"
tracing-subscriber = { version = "*", features = ["env-filter"] }
