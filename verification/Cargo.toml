[package]
name = "k_iter"
version = "0.1.0"
edition = "2021"
publish = false

[dependencies]
tokio = { version = "*", features = ["macros", "rt-multi-thread", "time", "sync"] }
clap = "*"
ctrlc = "*"
aws-sdk-kinesis = { version = "*", default-features = false }
aws-config = { version = "*", default-features = false }
