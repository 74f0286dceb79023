[package]
name = "memable"
version = "0.1.0"
edition = "2021"
publish = false

[dependencies]
futures-core = "0.3"
postcard = { version = "1", default-features = false, features = ["use-std"] }
redb = "3"
serde = { version = "1", features = ["derive"] }
thiserror = "2"
tokio = { version = "1", features = ["macros", "rt", "rt-multi-thread", "sync", "time"] }
tracing = "0.1"
