[package]
name = "iris_net"
version = "0.1.0"
edition = "2021"

[dependencies]
bincode = "2"
