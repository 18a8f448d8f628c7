[package]
name = "bridge_event_codec"
version = "0.1.0"
edition = "2021"
publish = false

[dependencies]
ethabi = "12.0.0"
hex = "0.4"
rlp = "0.4"
tiny-keccak = "1.4"
near-sdk = "3.1.0"
