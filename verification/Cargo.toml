[package]
name = "crusty"
version = "0.1.0"
edition = "2021"
publish = false

[dependencies]
serde = { version = "=1.0.229", features = ["derive"] }
serde_json = "=1.0.154"
clap = { version = "=4.6.7", features = ["derive"] }
dialoguer = "=0.12.0"
console = "=0.16.6"
indicatif = "=0.18.6"
directories = "=6.0.0"
tokio = { version = "=1.54.1", features = ["full"] }
tracing = "=0.1.44"
tracing-subscriber = { version = "=0.3.23", features = ["env-filter"] }
tracing-appender = "=0.2.5"
sysinfo = "=0.40.1"
opener = "=0.9.0"
uuid = { version = "=1.29.0", features = ["v4"] }
chrono = "=0.4.45"
thiserror = "=2.0.21"
meval = "=0.2.0"
futures-util = "=0.3.34"
async-trait = "=0.1.92"
rig-core = "=0.34.0"
reqwest = { version = "=0.13.5", features = ["json"] }
sqlx = { version = "=0.9.0", features = ["runtime-tokio", "sqlite", "any"] }
