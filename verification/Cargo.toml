[package]
name = "still_streamer"
version = "0.1.0"
edition = "2021"
publish = false

[dependencies]
bytebuffer = "0.2"
clap = "2.34"
image = "0.24"
