[package]
name = "repo_tree"
version = "0.1.0"
edition = "2021"
publish = false

[dependencies]
clap = { version = "*", features = ["derive"] }
dotenv = "*"
reqwest = { version = "*", default-features = false, features = ["blocking", "json"] }
serde = { version = "*", features = ["derive"] }
