[package]
name = "micwav"
version = "0.1.0"
edition = "2021"
publish = false

[dependencies]
anyhow = "*"
async-openai = "*"
cpal = "*"
tokio = { version = "*", features = ["rt-multi-thread", "macros", "time"] }

[dev-dependencies]
hound = "*"
