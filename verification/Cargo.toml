[package]
name = "tkey_exchange"
version = "0.1.0"
edition = "2021"
publish = false

[dependencies]
sgx_types = "=1.1.1"
p256 = { version = "=0.13.2", default-features = false, features = ["arithmetic", "ecdh"] }
sha2 = { version = "=0.10.9", default-features = false }
getrandom = { version = "=0.2.17" }
zeroize = { version = "=1.9.1", default-features = false }

[dev-dependencies]
hmac = { version = "=0.12.1", default-features = false }
