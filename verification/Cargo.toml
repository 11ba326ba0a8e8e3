[package]
name = "market_core"
version = "0.1.0"
edition = "2021"
publish = false

[dependencies]
heck = "*"
urlencoding = "*"
candid = "*"
serde = "*"
thiserror = "*"
ic-cdk = "=0.15.2"
ic-stable-structures = "*"
num-rational = "*"
num-traits = "*"
rust_decimal = "*"
