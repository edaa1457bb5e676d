[package]
name = "vm_recovery"
version = "0.1.0"
edition = "2021"
publish = false

[dependencies]
rand = "=0.10.3"
regex = "=1.13.1"
flate2 = "=1.1.10"
brotli = "=9.0.0"
zstd = "=0.14.0"
oxc_allocator = "=0.139.0"
oxc_ast = "=0.139.0"
oxc_parser = "=0.139.0"
oxc_span = "=0.139.0"
