[package]
name = "garde"
version = "0.1.0"
edition = "2021"
publish = false

[dependencies]
smallvec = "=1.16.5"
unicode-segmentation = "=1.13.3"
phonenumber = "=0.3.10"
rust_decimal = "=1.43.0"
fluent-bundle = "=0.15.3"
syn = { version = "=2.0.119", features = ["full"] }
proc-macro2 = "=1.0.107"
serde = { version = "1", features = ["derive"] }
