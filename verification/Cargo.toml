[package]
name = "emtt"
version = "0.1.0"
edition = "2021"
publish = false

[dependencies]
teloxide = { version = "=0.17.0", default-features = false }
takecell = "=0.1.1"
minijinja = "=2.24.0"
clap = { version = "=4.6.7", features = ["derive", "env"] }
clap-i18n-richformatter = "=0.3.2"
env_logger = "=0.11.11"
log = "=0.4.35"
reqwest = { version = "=0.12.28", default-features = false, features = ["json"] }
serde = { version = "=1.0.229", features = ["derive"] }
tokio = { version = "=1.54.1", features = ["macros", "rt-multi-thread", "net"] }
