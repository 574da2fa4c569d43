[package]
name = "presigning"
version = "0.1.0"
edition = "2021"
publish = false

[dependencies]
aws-smithy-runtime-api = { version = "1", features = ["client", "http-02x"] }
aws-smithy-types = { version = "1" }
http = { version = "0.2" }
