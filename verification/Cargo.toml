[package]
name = "pwninit"
version = "0.1.0"
edition = "2021"
publish = false

[dependencies]
colored = "2"
ex = "0.1"
regex = "1"
snafu = "0.7"
