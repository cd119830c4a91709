[package]
name = "doubao_asr"
version = "0.1.0"
edition = "2021"
publish = false

[dependencies]
anyhow = "1"
byteorder = "1"
enigo = "0.6"
flate2 = "1"
futures-util = "0.3"
log = "0.4"
serde = { version = "1", features = ["derive"] }
serde_json = "1"
tokio = { version = "1", features = ["rt", "macros", "sync", "time", "net"] }
tokio-tungstenite = "0.24"
transcribe-rs = { version = "*", features = ["onnx", "whisper-cpp"] }
uuid = { version = "1", features = ["v4"] }
