[package]
name = "axum_ratelimit"
version = "0.1.0"
edition = "2021"
publish = false

[dependencies]
axum = "0.5"
tower = "0.4"
