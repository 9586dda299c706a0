[package]
name = "fabric_rpc_rs"
version = "0.1.0"
edition = "2021"
publish = false

[dependencies]
tokio = { version = "*", features = ["sync", "rt-multi-thread", "macros", "time"] }
prost = "*"
prost-build = "*"
quote = "*"
proc-macro2 = "*"
convert_case = "*"
