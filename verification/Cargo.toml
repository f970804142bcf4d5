[package]
name = "local_athena"
version = "0.1.0"
edition = "2021"
publish = false

[dependencies]
actix-rt = "=2.15.0"
actix-web = { version = "=4.18.1", default-features = false, features = ["macros"] }
csv = "=1.4.0"
dotenv = "=0.15.0"
evmap = "=10.0.2"
mime = "=0.3.17"
serde = { version = "=1.0.229", features = ["derive"] }
sqlparser = "=0.63.0"
uuid = { version = "=1.29.0", features = ["v4"] }
