[package]
name = "gluxe"
version = "0.1.0"
edition = "2021"
publish = false

[dependencies]
unicode-segmentation = "=1.13.3"
rustc-hash = "=2.1.3"
serde = { version = "=1.0.229", features = ["derive"] }
serde_json = "=1.0.154"
notify = "=8.2.1"
include_dir = "=0.7.4"
url = "=2.5.8"
async-channel = "=2.5.0"
futures-lite = "=2.6.1"
stacker = "=0.1.25"
image = { version = "=0.25.10", default-features = false, features = ["ico"] }
embed-resource = "=3.0.12"

[dev-dependencies]
syn = { version = "2", features = ["full"] }
proc-macro2 = "1"
