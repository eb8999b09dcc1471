[package]
name = "sevenz"
version = "0.1.0"
edition = "2021"
publish = false

[dependencies]
aes = "*"
brotli = "=9.0.0"
bzip2 = "=0.6.1"
cbc = { version = "*", features = ["alloc"] }
flate2 = "=1.1.10"
lz4_flex = "=0.14.0"
lzma-rust = "=0.1.7"
sha2 = "*"
zstd = "=0.14.0"
