[package]
name = "zallet_migrate"
version = "0.1.0"
edition = "2021"
publish = false

[dependencies]
abscissa_core = "=0.9.0"
anyhow = "=1.0.104"
bip0039 = "=0.14.2"
hex = "=0.4.3"
sapling-crypto = "=0.9.0"
secp256k1 = "=0.33.1"
secrecy = "=0.8.0"
shardtree = "=0.8.0"
tokio = { version = "=1.54.1", features = ["io-std", "io-util", "rt"] }
tracing = "=0.1.44"
which = "=8.0.6"
zcash_client_backend = { version = "=0.25.0", features = ["transparent-inputs", "transparent-key-import", "unstable", "zcashd-compat"] }
zcash_client_sqlite = { version = "=0.23.0", features = ["transparent-inputs", "transparent-key-import", "unstable", "zcashd-compat"] }
zcash_keys = { version = "=0.17.0", features = ["transparent-inputs", "transparent-key-encoding", "unstable", "zcashd-compat"] }
zcash_primitives = { version = "=0.31.0", features = ["transparent-inputs"] }
zcash_protocol = { version = "=0.11.0", features = ["local-consensus"] }
zcash_script = { version = "=0.6.0", features = ["descriptor"] }
zcash_transparent = { version = "=0.11.0", features = ["transparent-inputs"] }
zewif = "1.0.0-rc.3"
zewif-zcashd = "0.1.0-rc.6"
zip32 = "=0.3.0"
