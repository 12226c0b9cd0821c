[package]
name = "signing_stage"
version = "0.1.0"
edition = "2021"
publish = false

[dependencies]
async-trait = "0.1"
futures = "0.3"
move-core-types = "0.0.3"
once_cell = "1"
