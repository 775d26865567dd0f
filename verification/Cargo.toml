[package]
name = "meshtassy_net"
version = "0.1.0"
edition = "2021"
publish = false

[dependencies]
aes = "=0.8.4"
base64 = "=0.22.1"
ctr = "=0.9.2"
meshtastic_protobufs = "=2.7.8"
prost = "=0.13.5"
