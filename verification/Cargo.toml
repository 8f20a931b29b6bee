[package]
name = "interledger"
version = "0.1.0"
edition = "2021"
publish = false

[dependencies]
byteorder = "1"
bytes = "1"
chrono = "0.4"
futures = "0.3"
uuid = "1"
