[package]
name = "supabase"
version = "0.1.0"
edition = "2021"
publish = false

[dependencies]
anyhow = "1"
base64 = "0.22"
http = "0.2"
postgrest = "1"
reqwest = "0.11"
serde = { version = "1", features = ["derive"] }
serde_json = "1"
