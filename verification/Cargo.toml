[package]
name = "dustweb"
version = "0.1.0"
edition = "2021"
publish = false

[dependencies]
actix-files = "0.6"
actix-web = "4"
chrono = "0.4"
email_address = "0.2"
pwhash = "1"
serde = { version = "1", features = ["derive"] }
serde_json = "1"
