[package]
name = "media_capture"
version = "0.1.0"
edition = "2021"
publish = false

[dependencies]
uuid = "=1.29.0"
rubato = "=0.16.2"
napi = { version = "=3.15.0", features = ["napi4"] }
napi-derive = "=3.6.13"
block2 = "=0.6.2"
objc2 = "=0.6.5"
core-foundation = { version = "=0.10.1", features = ["with-uuid"] }
coreaudio-rs = "=0.12.1"
