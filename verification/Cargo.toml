[package]
name = "quran_segmentation"
version = "0.1.0"
edition = "2021"
publish = false

[dependencies]
serde_json = "1"
serde = { version = "1", features = ["derive"] }
reqwest = { version = "0.12", features = ["json", "multipart", "stream"] }
tokio = { version = "1", features = ["rt-multi-thread", "time"] }
futures-util = "0.3"
bytes = "1"
