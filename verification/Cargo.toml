[package]
name = "dockyard"
version = "0.1.0"
edition = "2021"
publish = false

[dependencies]
bollard = "0.17"
futures-util = "0.3"
serde = { version = "1", features = ["derive"] }
thiserror = "1"
tokio = { version = "1", default-features = false, features = ["rt"] }
