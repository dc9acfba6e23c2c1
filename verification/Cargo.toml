[package]
name = "blindtest"
version = "0.1.0"
edition = "2021"
publish = false

[dependencies]
color-eyre = "=0.5.11"
humantime = "=2.4.0"
indicatif = "0.17"
lexical-sort = "=0.3.1"
serde_json = "=1.0.154"
structopt = "=0.3.26"
tar = "=0.4.46"
thiserror = "=1.0.69"
tokio = { version = "=1.54.1", features = ["process", "io-util", "rt", "macros"] }
