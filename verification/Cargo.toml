[package]
name = "wai_evdev"
version = "0.1.0"
edition = "2021"
publish = false

[dependencies]
void = "1"
libc = "0.2"
mio = "0.6"
tokio-core = "0.1"
futures = "0.1"
log = "0.4"
