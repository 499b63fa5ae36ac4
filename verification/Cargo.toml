[package]
name = "mbtunnel"
version = "0.1.0"
edition = "2021"
publish = false

[dependencies]
chacha20 = "=0.9.1"
getrandom = "=0.3.4"
xxhash-rust = { version = "=0.8.19", features = ["xxh3"] }
zstd = { version = "=0.13.4", default-features = false }
sha2 = "=0.10.9"
hex = "=0.4.3"
regex = "=1.13.1"
chrono = { version = "=0.4.45", features = ["serde"] }
serde = { version = "=1.0.229", features = ["derive"] }
serde_json = "=1.0.154"
owo-colors = "=4.4.0"
rand = "=0.9.5"
defguard_wireguard_rs = "=0.12.4"
base64 = "=0.22.1"
x25519-dalek = { version = "=3.0.0", features = ["static_secrets"] }
anyhow = "=1.0.104"
reqwest = { version = "=0.12.28", default-features = false, features = ["blocking", "json"] }
tokio = { version = "=1.54.1", features = ["rt-multi-thread", "time", "macros"] }
ctrlc = "=3.5.2"
signal-hook = "=0.3.18"
which = "=8.0.6"
caps = "=0.5.6"
libc = "=0.2.191"
