[package]
name = "l402_client"
version = "0.1.0"
edition = "2021"
publish = false

[dependencies]
bip39 = { version = "2", features = ["rand"] }
clap = { version = "4", features = ["derive"] }
dotenv = "0.15"
log = "0.4"
reqwest = { version = "0.11", features = ["json"] }
serde = { version = "1", features = ["derive"] }
serde_json = "1"
stderrlog = "0.5"
tokio = { version = "1", features = ["macros", "rt-multi-thread"] }
