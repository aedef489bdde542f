[package]
name = "zero2prod"
version = "0.1.0"
edition = "2021"
publish = false

[dependencies]
rand = "0.8"
url = "2"
urlencoding = "2"
serde = { version = "1", features = ["derive"] }
serde-aux = "*"
secrecy = { version = "0.8", features = ["serde"] }
config = "*"
maud = "*"
tokio = { version = "1", features = ["macros", "rt-multi-thread"] }
actix-web = { version = "4", default-features = false, features = ["macros"] }
sqlx = { version = "0.8", default-features = false, features = ["runtime-tokio", "postgres", "uuid", "chrono"] }
reqwest = { version = "0.12", default-features = false, features = ["json"] }
chrono = { version = "0.4", default-features = false, features = ["clock"] }
uuid = { version = "1", features = ["v4"] }
