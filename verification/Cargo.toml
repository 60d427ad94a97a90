[package]
name = "pong"
version = "0.1.0"
edition = "2021"
publish = false

[dependencies]
actix = "0.13"
actix-cors = "*"
actix-identity = "*"
actix-session = { version = "*", features = ["cookie-session"] }
actix-web = { version = "4", default-features = false, features = ["macros", "cookies"] }
oauth2 = { version = "4", default-features = false }
tokio = { version = "1", features = ["sync", "time"] }
