[package]
name = "enigma"
version = "0.1.0"
edition = "2021"
publish = false

[dependencies]
async-trait = "0.1"
crypt-config = "*"
futures = "0.3"
hyper = "0.13"
log = "0.4"
openssl = "0.10"
swagger = "5"
tokio = { version = "0.2", features = ["full"] }
tokio-openssl = "0.4"
