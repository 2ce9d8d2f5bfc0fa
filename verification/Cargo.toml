[package]
name = "exif_session"
version = "0.1.0"
edition = "2021"
publish = false

[dependencies]
serde_json = "1"
kamadak-exif = "0.6"
rexiv2 = "0.10"
