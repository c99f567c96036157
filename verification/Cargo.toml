[package]
name = "login_audit"
version = "0.1.0"
edition = "2021"
publish = false

[dependencies]
anyhow = "1"
thirtyfour = "*"
tokio = { version = "1", features = ["full"] }
