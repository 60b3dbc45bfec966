[package]
name = "m3u8dl_gui"
version = "1.0.0"
edition = "2021"
publish = false

[dependencies]
encoding_rs = "0.8"
serde = { version = "1", features = ["derive"] }
serde_json = "1"
iced = { version = "*", default-features = false, features = ["tiny-skia", "tokio"] }
rfd = { version = "*", default-features = false, features = ["xdg-portal", "tokio"] }
arboard = { version = "3", default-features = false }
ico = "*"
