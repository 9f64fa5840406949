[package]
name = "neuron_indexes"
version = "0.1.0"
edition = "2021"
publish = false

[dependencies]
ic-stable-structures = "=0.7.2"
convert_case = "=0.12.0"
serde = { version = "*", features = ["derive"] }
serde_cbor = "*"
prometheus = { version = "*", default-features = false }
