[package]
name = "trino_codegen"
version = "0.1.0"
edition = "2021"
publish = false

[dependencies]
bigdecimal = { version = "0.4", features = ["serde"] }
chrono = { version = "0.4", default-features = false, features = ["std"] }
data-encoding = "2"
proc-macro2 = "1"
regex = "1"
reqwest = { version = "0.11", default-features = false, features = ["json"] }
serde = { version = "1", features = ["derive"] }
serde_json = "1"
sha2 = "0.10"
tokio = { version = "1", features = ["time"] }
uuid = { version = "1", features = ["serde"] }
