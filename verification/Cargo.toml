[package]
name = "crust"
version = "0.1.0"
edition = "2021"
publish = false

[dependencies]
git2 = { version = "=0.20.4", default-features = false, features = ["https"] }
docopt = "=1.1.1"
hyper = "=0.10.16"
log = "=0.4.34"
