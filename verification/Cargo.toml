[package]
name = "opendal_adapter"
version = "0.1.0"
edition = "2021"
publish = false

[dependencies]
async-trait = "=0.1.92"
bytes = "=1.12.1"
chrono = "=0.4.45"
futures = "=0.3.34"
object_store = "=0.13.2"
opendal = { version = "=0.59.5", default-features = false }
tokio = { version = "=1.54.1", features = ["sync"] }
