[package]
name = "qbtrs"
version = "0.1.0"
edition = "2021"
publish = false

[dependencies]
chrono = "0.4"
clap = { version = "4", features = ["derive"] }
directories = "5"
humansize = "2"
reqwest = { version = "0.11", features = ["blocking", "cookies", "multipart", "json"] }
rpassword = "7"
serde = { version = "1", features = ["derive"] }
toml = "0.8"
url = { version = "2", features = ["serde"] }
