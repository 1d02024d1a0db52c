[package]
name = "zenchain_signer"
version = "0.1.0"
edition = "2021"
publish = false

[dependencies]
sp-core = "=43.0.0"
sp-crypto-hashing = "=0.1.0"
libsecp256k1 = "=0.7.2"
subxt-core = "=0.44.3"
once_cell = "=1.21.4"
thiserror = "=2.0.21"
