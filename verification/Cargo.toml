[package]
name = "enum_conversions"
version = "0.1.0"
edition = "2021"
publish = false

[dependencies]
quote = "=1.0.47"
syn = { version = "=1.0.109", features = ["full"] }
tera = { version = "=1.20.1", default-features = false }

[dev-dependencies]
proc-macro2 = "=1.0.107"
