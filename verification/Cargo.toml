[package]
name = "nmrs"
version = "0.1.0"
edition = "2021"
publish = false

[dependencies]
log = "0.4"
zbus = "5"
zeroize = "1"
zvariant = "5"
