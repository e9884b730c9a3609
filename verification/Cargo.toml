[package]
name = "stm32_eth"
version = "0.1.0"
edition = "2021"
publish = false

[dependencies]
smoltcp = { version = "*", default-features = false, features = ["medium-ethernet", "proto-ipv4", "socket-raw"] }
drone-cortexm = "*"
drone-stm32-map = "*"
