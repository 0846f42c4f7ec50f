[package]
name = "crabbythumb"
version = "0.1.0"
edition = "2021"
publish = false

[dependencies]
clap = { version = "4", features = ["derive"] }
image = { version = "0.24", default-features = false, features = ["gif", "jpeg", "png"] }
kamadak-exif = "0.5"
tokio = { version = "1", features = ["macros", "rt-multi-thread"] }
