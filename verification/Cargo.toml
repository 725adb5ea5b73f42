[package]
name = "actix_msgpack"
version = "0.1.0"
edition = "2021"
publish = false

[dependencies]
actix-web = { version = "4", default-features = false }
derive_more = "0.99"
futures-util = "0.3"
mime = "0.3"
rmp-serde = "1"
serde = "1"
