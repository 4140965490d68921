[package]
name = "ghostscript"
version = "0.1.0"
edition = "2021"
publish = false

[dependencies]
bitflags = "1"
boolinator = "2"
lazy_static = "1"
log = "0.4"
stable_deref_trait = "1"
widestring = "1"
