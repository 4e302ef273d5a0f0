[package]
name = "pkcs11"
version = "0.1.0"
edition = "2021"
publish = false

[dependencies]
asn1 = "*"
base64 = "*"
cryptoki-sys = "*"
nethsm-sdk-rs = "*"
merge = "*"
serde = { version = "1", features = ["derive"] }
serde_yaml = "*"
