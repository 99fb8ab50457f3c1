[package]
name = "compile_time"
version = "0.1.0"
edition = "2021"
publish = false

[dependencies]
chrono = "0.4"
once_cell = "1"
proc-macro2 = "1"
quote = "1"
rustc_version = "0.4"
semver = "1"
