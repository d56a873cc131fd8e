[package]
name = "backend"
version = "0.1.0"
edition = "2021"
publish = false

[dependencies]
chrono = "=0.4.45"
serde = { version = "=1.0.229", features = ["derive"] }
# Not named by the crate: pins toml-env's transitive dependency to a
# release still on toml 0.8, which toml-env 1.2.0 needs to compile.
serde-toml-merge = "=0.3.8"
serde_with = { version = "=3.24.0", features = ["chrono_0_4"] }
thiserror = "=1.0.69"
toml-env = "=1.2.0"
