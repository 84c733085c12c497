[package]
name = "storage_copy"
version = "0.1.0"
edition = "2021"
publish = false

[dependencies]
content_disposition = "*"
futures = "0.3"
globset = "0.4"
opendal = { version = "*", default-features = false }
restate-sdk = { version = "*", default-features = false }
typed-path = "*"
url = "2"
