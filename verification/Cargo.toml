[package]
name = "picoforge"
version = "0.1.0"
edition = "2021"
publish = false

[dependencies]
serde_cbor_2 = "*"
ring = "0.17"
aes = "0.8"
cbc = "0.1"
rand = "*"
hidapi = "*"
pcsc = "*"
log = "0.4"
log4rs = "*"
directories = "*"
