[package]
name = "hotkey_prompt_refiner"
version = "0.1.0"
edition = "2021"
publish = false

[dependencies]
global-hotkey = "*"
chrono = "0.4"
uuid = { version = "1", features = ["v4"] }
arboard = { version = "3", default-features = false }
enigo = "*"
reqwest = { version = "0.12", default-features = false, features = ["json", "rustls-tls"] }
serde = { version = "1", features = ["derive"] }
serde_json = "1"
tokio = { version = "1", features = ["rt-multi-thread"] }
keyring = "*"
directories = "*"
dirs = "*"
dotenv = "0.15"
toml = "*"
once_cell = "1"
