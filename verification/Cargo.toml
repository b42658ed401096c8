[package]
name = "lame4j"
version = "0.1.0"
edition = "2021"
publish = false

[dependencies]
minimp3 = "0.5"
jni = "*"
libc = "*"
mp3lame-sys = "*"
