[package]
name = "pgen_client"
version = "0.1.0"
edition = "2021"
publish = false

[dependencies]
anyhow = "*"
base64 = "*"
clap = { version = "*", features = ["derive"] }
clap-verbosity-flag = "*"
csv = "*"
deltae = "*"
ecolor = "*"
futures = "*"
itertools = "*"
kolor-64 = "*"
log = "*"
pretty_env_logger = "*"
serde = { version = "*", features = ["derive"] }
strum = { version = "*", features = ["derive"] }
tokio = { version = "*", features = ["full"] }
tokio-stream = "*"
yaserde = "*"
yaserde_derive = "*"

[dev-dependencies]
regex = "*"
