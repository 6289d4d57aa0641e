[package]
name = "gurl"
version = "0.1.0"
edition = "2021"
publish = false

[dependencies]
chrono = { version = "*", features = ["serde"] }
clap = { version = "*", features = ["derive"] }
colored = "*"
reqwest = { version = "*", default-features = false, features = ["blocking"] }
rpassword = "*"
serde = { version = "*", features = ["derive"] }
serde_derive = "*"
serde_json = "*"
termsize = "*"
