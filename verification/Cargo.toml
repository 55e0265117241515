[package]
name = "media_remux"
version = "0.1.0"
edition = "2021"
publish = false

[dependencies]
actix-web = { version = "4", default-features = false, features = ["macros"] }
actix-cors = "*"
actix-files = "0.6"
mime = "0.3"
