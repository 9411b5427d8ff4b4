[package]
name = "echo_voice"
version = "0.1.0"
edition = "2021"
publish = false

[dependencies]
anyhow = "=1.0.104"
async-openai = { version = "=0.42.2", features = ["chat-completion"] }
chrono = "=0.4.45"
enigo = "=0.6.1"
env_logger = "=0.11.11"
ferrous-opencc = "=0.4.0"
hound = "=3.5.1"
log = "=0.4.34"
once_cell = "=1.21.4"
regex = "=1.13.1"
reqwest = { version = "=0.12.28", features = ["json"] }
rubato = "=0.16.2"
rusqlite = { version = "=0.41.0", features = ["bundled"] }
serde = { version = "=1.0.229", features = ["derive"] }
serde_json = "=1.0.154"
symphonia = { version = "=0.5.5", features = ["aac", "isomp4", "mp3"] }
tokio = { version = "=1.54.1", features = ["rt", "time"] }
transcribe-rs = "=0.3.12"
whichlang = "=0.1.1"
