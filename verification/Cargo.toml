[package]
name = "show_me"
version = "0.1.0"
edition = "2021"
publish = false

[dependencies]
actix-cors = "0.7"
actix-web = "4"
actix-ws = "0.3"
chrono = "0.4"
futures = "0.3"
futures-util = "0.3"
jsonwebkey = { version = "0.3", features = ["jwt-convert"] }
jsonwebtoken = "8"
openssl = "0.10"
reqwest = "0.12"
serde = { version = "1", features = ["derive"] }
serde_json = { version = "1", features = ["preserve_order"] }
thiserror = "1"
