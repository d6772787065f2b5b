[package]
name = "sqlx_transparent_json_decode"
version = "0.1.0"
edition = "2021"
publish = false

[dependencies]
schemars = { version = "=0.8.22", features = ["raw_value"] }
serde = { version = "=1.0.229", features = ["derive"] }
serde_json = { version = "=1.0.154", features = ["raw_value"] }
sqlx = { version = "=0.8.6", default-features = false, features = ["postgres", "json"] }
