[package]
name = "dioxus-genai-chat"
version = "0.1.0"
edition = "2021"
publish = false

[dependencies]
genai = "*"
serde = { version = "1", features = ["derive"] }
serde_json = "1"
dioxus = "*"
dioxus-bulma = "*"
