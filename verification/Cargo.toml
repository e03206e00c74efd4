[package]
name = "togen"
version = "0.1.0"
edition = "2021"
publish = false

[dependencies]
clap = { version = "4", features = ["derive"] }
hex = "0.4"
hound = "3"
image = { version = "0.25", default-features = false, features = ["jpeg", "png"] }
log = "0.4"
xxhash-rust = { version = "0.8", features = ["xxh3"] }
