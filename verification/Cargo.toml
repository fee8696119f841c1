[package]
name = "luau_to_bytecode"
version = "0.1.0"
edition = "2021"
publish = false

[dev-dependencies]
mlua = { version = "0.9", features = ["luau"] }
