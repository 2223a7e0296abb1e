[package]
name = "nifi_provision"
version = "0.1.0"
edition = "2021"
publish = false

[dependencies]
oxigraph = { version = "=0.5.13", default-features = false }
simple-xml = "=0.1.10"
serde = { version = "=1.0.229", features = ["derive"] }
serde_json = "=1.0.154"
tokio = { version = "=1.54.1", features = ["rt", "macros", "time"] }
clap = { version = "=4.6.7", features = ["derive"] }
feignhttp = { version = "=0.6.3", features = ["reqwest-json", "reqwest-multipart"] }
rio_api = "=0.8.6"
rio_turtle = "=0.8.6"
