[package]
name = "navigator"
version = "0.1.0"
edition = "2021"
publish = false

[dependencies]
base64 = "0.22"
bollard = "*"
clap = { version = "4", features = ["derive", "env"] }
clap_complete = { version = "4", features = ["unstable-dynamic"] }
dialoguer = "*"
miette = "7"
owo-colors = "4"
rustls = { version = "0.23", default-features = false, features = ["ring", "std"] }
serde_json = "1"
tokio = { version = "1", features = ["macros", "process", "rt-multi-thread", "time"] }
tracing = "0.1"
tracing-subscriber = { version = "0.3", features = ["env-filter"] }
