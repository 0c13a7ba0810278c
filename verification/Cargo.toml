[package]
name = "merge_pipeline"
version = "0.1.0"
edition = "2021"
publish = false

[dependencies]
actix-cors = "0.7"
actix-files = "0.6"
actix-multipart = "0.6"
actix-web = "4"
futures = "0.3"
serde = { version = "1", features = ["derive"] }
tempfile = "3"
tokio = { version = "1", features = ["fs", "io-util", "process", "rt", "time"] }
uuid = { version = "1", features = ["v4"] }
