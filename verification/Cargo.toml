[package]
name = "nitro_attestation"
version = "0.1.0"
edition = "2021"
publish = false

[dependencies]
anyhow = "=1.0.104"
aws-nitro-enclaves-cose = "=0.5.3"
aws-nitro-enclaves-nsm-api = "=0.4.0"
openssl = "=0.10.82"
serde_bytes = "=0.11.19"
serde_cbor = "=0.11.2"
webpki = "=0.21.4"
x509-parser = "=0.15.1"
