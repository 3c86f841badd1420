[package]
name = "stream_player"
version = "0.1.0"
edition = "2021"
publish = false

[dependencies]
cpal = "0.15"
ez_jni = "*"
lazy_static = "1"
rb = "0.4"
rubato = "*"
symphonia = { version = "0.5", features = ["mp3"] }
ureq = "2"
