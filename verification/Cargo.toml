[package]
name = "asimov_telegram_module"
version = "0.1.0"
edition = "2021"
publish = false

[dependencies]
async-stream = "0.3"
clientele = "=0.3.14"
flume = { version = "0.11", default-features = false, features = ["async"] }
futures = "0.3"
hex = "=0.4.3"
jq = "=0.1.1"
keyring = "3"
miette = "7"
rand = { version = "=0.8.8", default-features = false, features = ["getrandom"] }
serde = { version = "=1.0.229", features = ["derive"] }
serde_json = "=1.0.154"
tokio = { version = "1", features = ["macros", "rt-multi-thread", "sync", "time"] }
tracing = "0.1"
url = "=2.5.8"
