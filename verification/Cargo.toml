[package]
name = "one_sided_escrow"
version = "0.1.0"
edition = "2021"
publish = false

[dependencies]
anchor-lang = { version = "*", features = ["init-if-needed"] }
