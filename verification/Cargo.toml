[package]
name = "napi_uniffi_engine"
version = "0.1.0"
edition = "2021"
publish = false

[dependencies]
syn = { version = "=2.0.119", features = ["full", "extra-traits", "parsing", "printing"] }
proc-macro2 = "=1.0.107"
napi = { version = "=3.16.1", features = ["napi6"] }
