[package]
name = "lightr_server"
version = "0.1.0"
edition = "2021"
publish = false

[dependencies]
actix-web = { version = "=4.18.1", default-features = false }
chrono = { version = "=0.4.45", default-features = false, features = ["clock", "serde"] }
uuid = { version = "=1.29.1", features = ["serde", "v4"] }
secrecy = { version = "=0.8.0", features = ["serde"] }
serde = { version = "=1.0.229", features = ["derive"] }
argon2 = "=0.5.3"
rand_core = { version = "=0.6.4", features = ["getrandom"] }
unicode-segmentation = "=1.13.3"
sqlx = { version = "0.7", default-features = false, features = ["postgres", "uuid", "chrono"] }
