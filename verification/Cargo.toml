[package]
name = "sunset"
version = "0.1.0"
edition = "2021"
publish = false

[dependencies]
actix-web = { version = "*", default-features = false, features = ["macros"] }
dirs = "*"
fern = "*"
log = "*"
parking_lot = "*"
serde = { version = "*", features = ["derive"] }
