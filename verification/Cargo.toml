[package]
name = "lin"
version = "0.1.0"
edition = "2021"
publish = false

[dependencies]
rand = "0.4"
simd = "*"

[dev-dependencies]
quickcheck = { version = "1", default-features = false }
