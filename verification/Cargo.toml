[package]
name = "vm_interface"
version = "0.1.0"
edition = "2021"
publish = false

[dependencies]
serde = { version = "1", features = ["derive"] }
zksync_basic_types = "=26.2.1-non-semver-compat"
zksync_system_constants = "=26.2.1-non-semver-compat"

[dev-dependencies]
serde_json = "1"
