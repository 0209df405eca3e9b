[package]
name = "deepseek_ocr_android"
version = "0.1.0"
edition = "2021"
publish = false

[dependencies]
tokenizers = "*"
image = "*"
clap = { version = "*", features = ["derive"] }
anyhow = "*"
thiserror = "*"
