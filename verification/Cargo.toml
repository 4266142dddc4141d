[package]
name = "turbosql"
version = "0.1.0"
edition = "2021"
publish = false

[dependencies]
rusqlite = "*"
serde = { version = "*", features = ["derive"] }
toml = "*"
fs2 = "*"
