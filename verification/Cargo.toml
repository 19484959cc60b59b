[package]
name = "deno_parts"
version = "0.1.0"
edition = "2021"
publish = false

[dependencies]
async-trait = "=0.1.92"
base64 = "=0.21.7"
const-oid = "=0.9.6"
crossbeam-channel = "=0.5.17"
deno_ast = { version = "=0.42.2", features = ["transpiling"] }
dsa = { version = "=0.6.3", features = ["std"] }
ed25519-dalek = { version = "=2.2.0", features = ["pkcs8", "rand_core", "digest"] }
hex = "=0.4.3"
hyper = { version = "=0.14.32", features = ["full"] }
libsui = "=0.4.0"
lsp-server = "=0.5.2"
lsp-types = "=0.86.0"
lspower = "0.1"
num-bigint = "=0.4.8"
p224 = { version = "=0.13.2", features = ["ecdh", "pkcs8", "pem"] }
p256 = { version = "=0.13.2", features = ["ecdh", "pkcs8", "pem", "jwk"] }
p384 = { version = "=0.13.1", features = ["ecdh", "pkcs8", "pem", "jwk"] }
pkcs8 = { version = "=0.10.2", features = ["std", "pem", "encryption"] }
rand = "=0.8.8"
regex = "=1.13.1"
rsa = { version = "=0.9.10", features = ["std", "pem"] }
rusqlite = { version = "=0.28.0", features = ["bundled"] }
sec1 = { version = "=0.7.3", features = ["std", "pem", "pkcs8"] }
serde = { version = "=1.0.210", features = ["derive"] }
serde_json = "=1.0.128"
spki = { version = "=0.7.3", features = ["std", "pem"] }
tokio = { version = "=1.54.1", features = ["full"] }
tokio-util = { version = "=0.7.20", features = ["io"] }
url = "=2.5.8"
x25519-dalek = { version = "=2.0.1", features = ["static_secrets"] }
