[package]
name = "wordterm"
version = "0.1.0"
edition = "2021"
publish = false

[dependencies]
anstream = "=1.0.0"
anstyle = "=1.0.14"
datetime = "=0.5.2"
reqwest = { version = "=0.13.5", features = ["blocking", "json"] }
serde_json = "=1.0.154"
