[package]
name = "gat_core"
version = "0.1.0"
edition = "2021"
publish = false

[dependencies]
git2 = { version = "=0.21.0", default-features = false }
ignore = "=0.4.33"
rayon = "=1.12.0"
chrono = "=0.4.45"
serde = { version = "=1.0.229", features = ["derive"] }
serde_json = "=1.0.151"
dirs = "=7.0.0"

[dev-dependencies]
tempfile = "=3.27.0"
fs-err = "*"
