[package]
name = "transcriber"
version = "0.1.0"
edition = "2021"
publish = false

[dependencies]
hf-hub = { version = "=0.5.0", default-features = false, features = ["ureq"] }
serde_json = "=1.0.154"
anyhow = "=1.0.104"
clap = { version = "=4.6.7", features = ["derive"] }
notify = "=8.2.1"
symphonia = { version = "=0.5.5", features = ["isomp4", "aac"] }
rubato = "=0.16.2"
transcribe-rs = { version = "=0.2.9", features = ["parakeet", "moonshine"] }
candle-core = "=0.11.1"
candle-nn = "=0.11.1"
candle-transformers = "=0.11.1"
tokenizers = "=0.23.2"
byteorder = "=1.5.0"

[dev-dependencies]
tempfile = "=3.27.0"
