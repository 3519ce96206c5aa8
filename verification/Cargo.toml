[package]
name = "limbo"
version = "0.1.0"
edition = "2021"
publish = false

[dependencies]
anyhow = "=1.0.104"
azalea-auth = "=0.9.1"
azalea-buf = "=0.9.1"
azalea-core = "=0.9.1"
azalea-entity = "=0.9.1"
azalea-protocol = "=0.9.1"
azalea-world = "=0.9.1"
clap = { version = "=4.6.7", features = ["derive"] }
dashmap = "=5.5.3"
figment = { version = "=0.10.19", features = ["toml"] }
hmac-sha256 = "=1.1.15"
md-5 = "=0.10.6"
once_cell = "=1.21.4"
rand = "=0.8.8"
serde = { version = "=1.0.229", features = ["derive"] }
simdnbt = "=0.4.2"
thiserror = "=1.0.69"
tokio = { version = "=1.54.1", features = ["full"] }
tracing = "=0.1.44"
tracing-subscriber = { version = "=0.3.23", features = ["env-filter"] }
uuid = "=1.29.0"
