[package]
name = "safecopy"
version = "0.1.0"
edition = "2021"
publish = false

[dependencies]
bincode = "0.9"
proc-macro2 = "1"
quote = "1"
syn = { version = "2", features = ["full"] }

[dev-dependencies]
quickcheck = "1"
