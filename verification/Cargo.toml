[package]
name = "ghost-crab"
version = "0.1.0"
edition = "2021"
publish = false

[dependencies]
alloy = { version = "=0.1.4", features = ["provider-http", "rpc-types-eth"] }
dotenvy = "=0.15.7"
proc-macro2 = "=1.0.107"
quote = "=1.0.47"
serde = { version = "=1.0.229", features = ["derive"] }
serde_json = "=1.0.154"
syn = { version = "=2.0.119", features = ["full"] }
tokio = { version = "=1.54.1", features = ["macros", "rt-multi-thread", "sync", "time"] }
