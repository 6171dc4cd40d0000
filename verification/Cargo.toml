[package]
name = "repos"
version = "0.1.0"
edition = "2021"
publish = false

[dependencies]
anyhow = "*"
dotenv = "*"
reqwest = { version = "*", default-features = false, features = ["json"] }
serde = { version = "*", features = ["derive"] }
structopt = "*"
tokio = { version = "*", features = ["macros", "rt-multi-thread"] }
