[package]
name = "tes3mp_runner"
version = "0.1.0"
edition = "2021"
publish = false

[dependencies]
ansiterm = "*"
regex = "*"
anyhow = "*"
clap = { version = "*", features = ["derive", "env"] }
is-terminal = "*"
once_cell = "*"
reqwest = { version = "*", default-features = false, features = ["blocking", "rustls-tls"] }
sevenz-rust = "*"
tempfile = "*"
tokio = { version = "*", features = ["full"] }
tracing = "*"
tracing-subscriber = { version = "*", features = ["env-filter"] }
