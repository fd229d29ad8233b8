[package]
name = "orcamento_api"
version = "0.1.0"
edition = "2021"
publish = false

[dependencies]
actix-files = "*"
actix-web = "*"
chrono = { version = "*", features = ["serde"] }
diesel = { version = "*", features = ["postgres", "r2d2", "chrono"] }
rayon = "*"
serde = { version = "*", features = ["derive"] }
sha2 = "*"
uuid = { version = "*", features = ["v4", "serde"] }
validator = { version = "*", features = ["derive"] }
