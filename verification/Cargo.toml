[package]
name = "autozig"
version = "0.1.0"
edition = "2021"
publish = false

[dependencies]
syn = { version = "2", features = ["full", "visit"] }
quote = "1"
proc-macro2 = "1"
sha2 = "0.10"
anyhow = "1"
walkdir = "2"
tokio = { version = "1", default-features = false, features = ["sync"] }
futures = { version = "0.3", default-features = false, features = ["std"] }
