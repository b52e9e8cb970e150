[package]
name = "js_sandbox"
version = "0.1.0"
edition = "2021"
publish = false

[dependencies]
url = "2"
rquickjs = "*"
reqwest = { version = "*", default-features = false, features = ["blocking"] }
serde = { version = "*", features = ["derive"] }
serde_json = "*"
anyhow = "*"
lambda_runtime = "*"
tokio = { version = "*", features = ["macros", "rt"] }
tracing = "*"
tracing-subscriber = "*"
