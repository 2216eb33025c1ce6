[package]
name = "ts_binding"
version = "0.1.0"
edition = "2021"
publish = false

[dependencies]
dotenvy = "=0.15.7"
poem-mcpserver = "=0.3.1"
reqwest = { version = "=0.13.5", default-features = false, features = ["json"] }
schemars = "=1.2.3"
serde = { version = "=1.0.229", features = ["derive"] }
serde_json = "=1.0.154"
syn = { version = "=2.0.119", features = ["full"] }
tokio = { version = "=1.54.1", features = ["macros", "rt-multi-thread", "io-std"] }
