[package]
name = "mu_alb"
version = "0.1.0"
edition = "2021"
publish = false

[dependencies]
serde = { version = "1", features = ["derive"] }
serde_json = "1"
aws_lambda_events = { version = "*", default-features = false, features = ["alb"] }
