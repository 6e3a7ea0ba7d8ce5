[package]
name = "ctap_hid_fido2"
version = "0.1.0"
edition = "2021"
publish = false

[dependencies]
hidapi = "*"
serde_cbor = "0.11"
strum_macros = "*"
