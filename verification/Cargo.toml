[package]
name = "defmt_logger"
version = "0.1.0"
edition = "2021"
publish = false

[dependencies]
anyhow = "=1.0.104"
critical-section = "=1.2.0"
defmt = "=1.2.0"
defmt-decoder = "=1.2.0"
embassy-executor = "=0.9.1"
embassy-sync = "=0.8.0"

[dev-dependencies]
object = { version = "=0.36.7", default-features = false, features = ["write_core", "elf"] }
serde_json = "=1.0.154"
