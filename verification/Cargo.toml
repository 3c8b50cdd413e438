[package]
name = "code_lens"
version = "0.1.0"
edition = "2021"
publish = false

[dependencies]
globset = "*"
uuid = { version = "*", features = ["v4"] }
chrono = "*"
tokio = { version = "*", features = ["rt-multi-thread", "macros", "fs", "process", "sync", "time"] }
git2 = { version = "*", default-features = false }
reqwest = { version = "*", default-features = false, features = ["json"] }
lettre = { version = "*", default-features = false, features = ["builder", "smtp-transport", "tokio1"] }
serde = { version = "*", features = ["derive"] }
serde_json = "*"
jsonwebtoken = "*"
async-walkdir = "*"
futures = "*"
