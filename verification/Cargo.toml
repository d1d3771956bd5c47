[package]
name = "mp3lame_encoder"
version = "0.1.0"
edition = "2021"
publish = false

[dependencies]
libc = "*"
mp3lame-sys = "*"
