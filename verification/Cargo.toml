[package]
name = "good_web_game"
version = "0.1.0"
edition = "2021"
publish = false

[dependencies]
cgmath = "0.17"
miniquad = "0.3"
stdweb = "0.4"
