[package]
name = "sql_pipe"
version = "0.1.0"
edition = "2021"
publish = false

[dependencies]
byteorder = "1"
futures = "0.3"
log = "0.4"
tokio = { version = "1", default-features = false, features = ["io-util"] }
