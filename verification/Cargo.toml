[package]
name = "auth_service"
version = "0.1.0"
edition = "2021"
publish = false

[dependencies]
rust-argon2 = "2.1"
rand = "0.8"
r2d2_redis = "0.14"
serde = { version = "1", features = ["derive"] }
tokio = { version = "1", features = ["macros", "rt-multi-thread"] }
warp = { version = "0.3", default-features = false }
