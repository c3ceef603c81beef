[package]
name = "vorago_shared_hal"
version = "0.1.0"
edition = "2021"
publish = false

[dependencies]
arbitrary-int = "=2.2.0"
cortex-m = "=0.7.10"
critical-section = { version = "=1.2.0", features = ["std"] }
embassy-sync = "=0.7.2"
embassy-time-driver = "=0.2.2"
embassy-time-queue-utils = "=0.3.2"
embedded-hal = "=1.0.0"
embedded-hal-async = "=1.0.0"
embedded-hal-nb = "=1.0.0"
embedded-io = "=0.6.1"
embedded-io-async = "=0.6.1"
fugit = "=0.3.9"
heapless = "=0.8.0"
nb = "=1.1.0"
once_cell = "=1.21.4"
portable-atomic = "=1.15.0"
raw_slice = "=0.0.0"
thiserror = "=2.0.21"
va416xx = "=0.5.0"
