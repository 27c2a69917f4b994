[package]
name = "migration_gen"
version = "0.1.0"
edition = "2021"
publish = false

[dependencies]
anyhow = "1"
chrono = "0.4"
clap = { version = "4", features = ["derive"] }
env_logger = "0.11"
glob = "0.3"
log = "0.4"
serde = { version = "1", features = ["derive"] }
tinytemplate = "1"

[dev-dependencies]
regex = "1"
