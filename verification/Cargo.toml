[package]
name = "vexus_bot"
version = "0.1.0"
edition = "2021"
publish = false

[dependencies]
chrono = "0.4"
dotenv = "0.15"
serenity = "0.12"
sys-info = "0.9"
tokio = { version = "1", features = ["macros", "rt-multi-thread", "time"] }
