[package]
name = "detent"
version = "0.1.0"
edition = "2021"
publish = false

[dependencies]
serde = { version = "1", features = ["derive"] }
serde_yaml = "*"
quick-xml = { version = "*", features = ["serialize"] }
regex = "1"
libxml = "*"
