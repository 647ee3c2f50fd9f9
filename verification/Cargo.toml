[package]
name = "yaay"
version = "0.1.0"
edition = "2021"
publish = false

[dependencies]
mio = "0.6"
slab = "0.4"
iovec = "0.1"
parking_lot = "0.12"
parking_lot_core = "0.9"
