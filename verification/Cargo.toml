[package]
name = "anauuno"
version = "0.1.0"
edition = "2021"
publish = false

[dependencies]
hex = "=0.4.3"
openssl = "=0.10.81"
protobuf = "3"
rusb = "=0.9.4"
