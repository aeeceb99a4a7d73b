[package]
name = "sunfish"
version = "0.1.0"
edition = "2021"
publish = false

[dependencies]
anyhow = "1"
digest = "0.10"
futures = "0.3"
hex = "0.4"
http = "0.2"
hyper = "0.14"
ignore = "0.4"
sha2 = "0.10"
walkdir = "2"
