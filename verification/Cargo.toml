[package]
name = "target-test-dir"
version = "0.1.0"
edition = "2021"
publish = false

[dependencies]
anyhow = "1"
anyhow-std = "*"
function_name = "*"
once_cell = "1"
proc-macro2 = "1"
quote = "1"
syn = { version = "2", features = ["full"] }
