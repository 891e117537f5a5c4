[package]
name = "llm_client"
version = "0.1.0"
edition = "2021"
publish = false

[dependencies]
async-openai = "0.20"
async-trait = "0.1"
futures = "0.3"
tokio = { version = "1", features = ["sync", "macros", "rt-multi-thread"] }
directories = "5"
