[package]
name = "rustimage_core"
version = "0.1.0"
edition = "2021"
publish = false

[dependencies]
image = { version = "0.24", default-features = false, features = ["jpeg", "png", "gif", "bmp", "ico", "tiff", "webp"] }
rayon = "1"
serde = { version = "1", features = ["derive"] }
thiserror = "1"
