[package]
name = "simdjson_schema"
version = "0.1.0"
edition = "2021"
publish = false

[dependencies]
hashbrown = "*"
simd-json = "*"
url = "*"
