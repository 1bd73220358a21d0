[package]
name = "surrealdb_bench"
version = "0.1.0"
edition = "2021"
publish = false

[dependencies]
fake = "=2.10.0"
rand = "=0.8.8"
serde = { version = "1", features = ["derive"] }
