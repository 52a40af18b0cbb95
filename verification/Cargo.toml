[package]
name = "coralizer"
version = "0.1.0"
edition = "2021"
publish = false

[dependencies]
regex = "=1.13.1"
toml_edit = "=0.25.15"
anyhow = "=1.0.104"
clap = { version = "=4.6.7", features = ["derive"] }
console = "=0.16.6"
crossbeam = "=0.8.5"
directories-next = "=2.0.0"
ignore = "=0.4.33"
indicatif = "=0.18.6"
inquire = "=0.9.4"
reqwest = { version = "=0.13.5", default-features = false }
serde = { version = "=1.0.229", features = ["derive"] }
serde_json = "=1.0.151"
tokio = { version = "=1.53.2", features = ["macros", "rt-multi-thread", "process"] }
zip = { version = "=8.6.0", default-features = false, features = ["deflate"] }
rmcp = { version = "=3.5.0", features = ["client", "transport-streamable-http-client-reqwest"] }
mcp-runner = "=0.3.1"
rig-core = { version = "=0.43.0", features = ["reqwest"] }
