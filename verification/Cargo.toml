[package]
name = "runestick"
version = "0.1.0"
edition = "2021"
publish = false

[dependencies]
futures = "0.3"
itoa = "1"
num = "0.4"
ryu = "1"
thiserror = "1"
