[package]
name = "stdf_ingest"
version = "0.1.0"
edition = "2021"
publish = false

[dependencies]
rusqlite = { version = "=0.40.2", features = ["bundled"] }
hex = "=0.4.3"
chrono = "=0.4.45"
crossbeam-channel = "=0.5.17"
flate2 = "=1.1.10"
zip = "=8.6.0"
rust-stdf = { version = "=1.1.0", features = ["zipfile"] }
