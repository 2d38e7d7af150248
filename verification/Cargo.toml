[package]
name = "honest_tax_core"
version = "0.1.0"
edition = "2021"
publish = false

[dependencies]
serde = { version = "*", features = ["derive"] }
serde_json = "*"
rust_decimal = { version = "*", features = ["serde"] }
rust_decimal_macros = "*"
thiserror = "*"
