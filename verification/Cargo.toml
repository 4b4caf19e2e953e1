[package]
name = "iceberg_compaction_core"
version = "0.1.0"
edition = "2021"
publish = false

[dependencies]
iceberg = "=0.10.1"
datafusion = { version = "=54.1.0", default-features = false }
