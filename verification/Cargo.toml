[package]
name = "git-sync-rs"
version = "0.7.0"
edition = "2021"
publish = false

[dependencies]
anyhow = "1"
chrono = "0.4"
clap = { version = "4", features = ["derive"] }
directories = "6"
git2 = { version = "0.20", default-features = false }
hostname = "0.4"
image = { version = "0.25", default-features = false, features = ["png"] }
ksni = "0.3"
notify = "8"
serde = { version = "1", features = ["derive"] }
shellexpand = "3"
thiserror = "2"
tokio = { version = "1", features = ["macros", "rt-multi-thread", "sync", "time"] }
toml = "0.8"
tracing = "0.1"
tracing-subscriber = { version = "0.3", features = ["env-filter"] }

[dev-dependencies]
tempfile = "3"
