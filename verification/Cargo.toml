[package]
name = "trustlet_monitor"
version = "0.1.0"
edition = "2021"
publish = false

[dependencies]
igvm_defs = "*"
log = "0.4"
