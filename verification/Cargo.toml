[package]
name = "fib_payments"
version = "0.1.0"
edition = "2021"
publish = false

[dependencies]
url = "*"
serde_urlencoded = "*"
serde = { version = "*", features = ["derive"] }
serde_json = "*"
reqwest = { version = "*", default-features = false, features = ["json"] }
tokio = { version = "*", features = ["rt-multi-thread", "macros", "sync", "time"] }
chrono = { version = "*", features = ["serde"] }
dotenv = "*"
