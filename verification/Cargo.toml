[package]
name = "cookiecluster"
version = "0.1.0"
edition = "2021"
publish = false

[dependencies]
anstyle = "*"
anyhow = "*"
clap = { version = "*", features = ["derive"] }
clap-verbosity-flag = "*"
dialoguer = "*"
serde = { version = "*", features = ["derive"] }
serde_json = "*"
serde_yaml = "*"
strum = "*"
strum_macros = "*"
tracing = "*"
tracing-log = "*"
tracing-subscriber = "*"
