[package]
name = "vorbis_enc"
version = "0.1.0"
edition = "2021"
publish = false

[dependencies]
libc = "0.2"
ogg-sys = "*"
rand = "0.4"
vorbis-sys = "*"
vorbisenc-sys = "*"
