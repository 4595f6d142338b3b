[package]
name = "metadata_extractor"
version = "0.1.0"
edition = "2021"
publish = false

[dependencies]
infer = "*"
kamadak-exif = "0.5"
minidom = "0.15"
pdf = "0.7"
serde_json = "1"
xml-rs = "0.8"
