[package]
name = "limen"
version = "0.1.0"
edition = "2021"
publish = false

[dependencies]
ringbuf = "0.4"
syn = { version = "2", features = ["full", "parsing"] }
