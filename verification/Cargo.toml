[package]
name = "avpm"
version = "0.1.0"
edition = "2021"
publish = false

[dependencies]
age = { version = "=0.11.5", default-features = false, features = ["armor"] }
arboard = { version = "=3.7.0", default-features = false }
clap = { version = "=4.6.7", default-features = false, features = ["derive", "std", "help", "usage", "error-context"] }
config = { version = "=0.15.27", default-features = false, features = ["toml", "preserve_order"] }
crossterm = "=0.29.0"
dirs = "=6.0.0"
jiff = { version = "=0.2.39", default-features = false, features = ["std", "serde"] }
keyring = "=4.2.0"
rand = "=0.8.8"
ratatui = { version = "=0.30.2", default-features = false, features = ["crossterm"] }
reqwest_dav = { version = "=0.3.3", default-features = false }
rpassword = "=7.5.4"
secret-service = { version = "=5.2.0", features = ["rt-tokio-crypto-rust"] }
serde = { version = "=1.0.229", features = ["derive"] }
serde_json = "=1.0.154"
tokio = { version = "=1.54.1", default-features = false, features = ["rt-multi-thread", "process"] }
tracing = { version = "=0.1.44", default-features = false, features = ["std"] }
tracing-subscriber = { version = "=0.3.23", default-features = false, features = ["env-filter", "fmt"] }
zbus = { version = "=5.19.0", default-features = false, features = ["tokio", "blocking-api"] }
zeroize = "=1.9.1"
zvariant = { version = "=5.15.1", default-features = false }
