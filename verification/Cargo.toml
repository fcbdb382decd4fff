[package]
name = "guitar_amp_dsp"
version = "0.1.0"
edition = "2021"
publish = false

[dependencies]
heapless = { version = "=0.8.0", features = ["serde"] }
serde = { version = "=1.0.229", features = ["derive"] }
libm = "=0.2.16"
micromath = "=2.1.0"
log = "=0.4.35"
