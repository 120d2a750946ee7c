[package]
name = "robust_pipeline"
version = "0.1.0"
edition = "2021"
publish = false

[dependencies]
steady_state = { version = "=0.2.13", default-features = false, features = ["exec_async_std"] }
clap = { version = "=4.6.7", features = ["derive"] }
