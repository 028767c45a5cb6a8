[package]
name = "bookmark_ui"
version = "0.1.0"
edition = "2021"
publish = false

[dependencies]
clap = { version = "4", features = ["derive"] }
derivative = "2"
derive_more = "0.99"
iced = "0.8"
rmp-serde = "1"
serde = { version = "1", features = ["derive"] }
tap = "1"
thiserror = "1"
tokio = { version = "1", features = ["fs"] }
uuid = { version = "1", features = ["v4", "serde"] }
