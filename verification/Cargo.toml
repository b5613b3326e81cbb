[package]
name = "restic_manager"
version = "0.1.0"
edition = "2021"
publish = false

[dependencies]
bzip2 = "*"
chrono = "*"
clap = { version = "*", features = ["derive"] }
dialoguer = "*"
dirs = "*"
fd-lock = "*"
reqwest = { version = "*", default-features = false, features = ["blocking", "json", "rustls-tls"] }
serde = { version = "*", features = ["derive"] }
serde_json = "*"
thiserror = "*"
tokio = { version = "*", features = ["rt", "rt-multi-thread", "process", "time"] }
toml = "*"
tracing = "*"
tracing-appender = "*"
tracing-subscriber = { version = "*", features = ["env-filter"] }
which = "*"
zip = { version = "*", default-features = false, features = ["deflate"] }

[dev-dependencies]
tempfile = "*"
