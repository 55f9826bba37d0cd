[package]
name = "sqs_replay"
version = "1.0.0"
edition = "2021"
publish = false

[dependencies]
clap = "2.33"
rusoto_core = "0.42"
rusoto_sqs = "0.42"
