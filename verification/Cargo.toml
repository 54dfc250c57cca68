[package]
name = "rollup"
version = "0.1.0"
edition = "2021"
publish = false

[dependencies]
regex = "1"
rustc-serialize = "0.3"
curl = "0.4"
docopt = "1"
serde = { version = "1", features = ["derive"] }
