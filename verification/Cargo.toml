[package]
name = "opus_pvm"
version = "0.1.0"
edition = "2021"
publish = false

[dependencies]
uuid = "=1.29.0"
serde = { version = "=1.0.229", features = ["derive"] }
serde_json = "=1.0.154"
chrono = { version = "=0.4.45", features = ["serde"] }
either = "=1.19.0"
lending-library = "=0.2.0"
rayon = "=1.12.0"
zip = { version = "=9.2.2", default-features = false }
libc = "=0.2.191"
neo4j = "=0.1.0"
