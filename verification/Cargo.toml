[package]
name = "governance_migrations"
version = "0.1.0"
edition = "2021"
publish = false

[dependencies]
parity-scale-codec = "3"
log = "0.4"
