[package]
name = "odata_atom"
version = "0.1.0"
edition = "2021"
publish = false

[dependencies]
chrono = "*"
axum = "*"
http = "*"
serde = { version = "*", features = ["derive"] }
async-trait = "*"
