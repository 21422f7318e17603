[package]
name = "oneiromancer"
version = "0.1.0"
edition = "2021"
publish = false

[dependencies]
anyhow = "1"
clap = { version = "4", features = ["derive", "env"] }
regex = "1"
serde = { version = "1", features = ["derive"] }
serde_json = "1"
spinners = "4"
textwrap = "0.16"
thiserror = "2"
ureq = { version = "3", default-features = false, features = ["json"] }
