[package]
name = "abi_codegen"
version = "0.1.0"
edition = "2021"
publish = false

[dependencies]
case = "1"
everscale-types = { version = "*", features = ["abi", "serde", "models"] }
syn = { version = "2", features = ["full"] }
quote = "1"
proc-macro2 = "1"
serde_json = "1"
anyhow = "1"
num-bigint = "0.4"
