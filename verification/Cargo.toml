[package]
name = "scope_oracles"
version = "0.1.0"
edition = "2021"
publish = false

[dependencies]
anchor-lang = "*"
num_enum = "*"
serde = { version = "*", features = ["derive"] }
