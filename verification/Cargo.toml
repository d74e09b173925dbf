[package]
name = "arma3_launcher"
version = "0.1.0"
edition = "2021"
publish = false

[dependencies]
shell-words = "1"
dirs-next = "2"
thiserror = "1"
anyhow = "1"
which = "*"
winreg = "*"
clap = { version = "4", features = ["derive"] }
