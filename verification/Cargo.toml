[package]
name = "git_branches"
version = "0.1.0"
edition = "2021"
publish = false

[dependencies]
git2 = { version = "0.20", default-features = false }
serde = { version = "1", features = ["derive"] }

[dev-dependencies]
tempfile = "3"
