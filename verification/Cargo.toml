[package]
name = "blazesym_c"
version = "0.1.0"
edition = "2021"
publish = false

[dependencies]
blazesym = { version = "=0.2.6", features = ["apk"] }

[dev-dependencies]
libc = "=0.2.190"
