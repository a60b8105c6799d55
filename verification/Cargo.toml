[package]
name = "ghost_hand_client"
version = "0.1.0"
edition = "2021"
publish = false

[dependencies]
base64 = "0.22"
ring = "0.17"
x25519-dalek = { version = "2", features = ["static_secrets"] }
serde = { version = "1", features = ["derive"] }
serde_json = "1"
tokio = { version = "1", features = ["full"] }
tokio-tungstenite = "0.24"
futures = "0.3"
bytes = "1"
webrtc = "0.11"
image = { version = "0.25", default-features = false, features = ["jpeg"] }
enigo = "0.2"
thiserror = "1"
tracing = "0.1"
tracing-subscriber = "0.3"
async-trait = "0.1"
