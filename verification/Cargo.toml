[package]
name = "db_bootstrap"
version = "0.1.0"
edition = "2021"
publish = false

[dependencies]
typedb-driver = "2"
serde_json = "1"
