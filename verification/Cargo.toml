[package]
name = "mb2-console"
version = "0.1.0"
edition = "2021"
publish = false

[dependencies]
cortex-m = "=0.7.10"
critical-section-lock-mut = "=0.1.2"
embedded-hal = "=0.2.7"
microbit-v2 = { version = "=0.16.0", features = ["embedded-hal-02"] }
nb = "=1.1.0"
