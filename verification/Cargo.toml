[package]
name = "pf_engine"
version = "0.1.0"
edition = "2021"
publish = false

[dependencies]
bevy = { version = "0.7", default-features = false }
ahash = "0.7"
glow = "0.11"
rg3d-core = "*"
log = "0.4"
libc = "0.2"
ndk = "*"
ndk-sys = "*"
android_logger = "*"
proc-macro2 = "1"
quote = "1"
syn = { version = "1", features = ["full"] }
