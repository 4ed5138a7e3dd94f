[package]
name = "ntpserver"
version = "0.1.0"
edition = "2021"
publish = false

[dependencies]
byteorder = "1"
rand = "0.8"
chrono = "0.4"
rsntp = { version = "*", default-features = false, features = ["chrono"] }
serde = { version = "1", features = ["derive"] }
