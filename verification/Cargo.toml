[package]
name = "async_codec_lite"
version = "0.1.0"
edition = "2021"
publish = false

[dependencies]
serde_json = "1"
serde_cbor = "0.11"
futures-core = "0.3"
futures-io = "0.3"
futures-sink = "0.3"
