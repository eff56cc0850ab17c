[package]
name = "relayer"
version = "0.1.0"
edition = "2021"
publish = false

[dependencies]
anyhow = "1"
dotenv = "0.15"
ethers = { version = "2.0", default-features = false }
handlebars = "*"
reqwest = { version = "0.11", default-features = false, features = ["json"] }
serde = { version = "1", features = ["derive"] }
serde_json = "1"
sqlx = { version = "0.8", default-features = false, features = ["postgres", "runtime-tokio", "uuid"] }
tokio = { version = "1", features = ["rt-multi-thread", "macros", "fs", "sync"] }
uuid = { version = "1", features = ["v4", "serde"] }
