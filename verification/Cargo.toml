[package]
name = "packet_marshaling"
version = "0.1.0"
edition = "2021"

[dependencies]
bincode = "1"
