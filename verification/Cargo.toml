[package]
name = "whisgo"
version = "0.1.0"
edition = "2021"
publish = false

[dependencies]
arboard = "*"
cpal = "*"
dotenv = "*"
rdev = "*"
reqwest = { version = "*", default-features = false, features = ["blocking", "multipart"] }
serde = { version = "*", features = ["derive"] }
serde_json = "*"

[dev-dependencies]
hound = "*"
