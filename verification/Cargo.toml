[package]
name = "azalea_graphics"
version = "0.1.0"
edition = "2021"
publish = false

[dependencies]
crossbeam = "=0.8.5"
glam = "=0.34.1"
log = "=0.4.34"
num_cpus = "=1.17.0"
parking_lot = "=0.12.5"
