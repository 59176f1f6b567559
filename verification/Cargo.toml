[package]
name = "mio_egal"
version = "0.1.0"
edition = "2021"
publish = false

[dependencies]
flume = "0.11"
mio = { version = "1", features = ["os-poll", "net"] }
once_cell = "1"
