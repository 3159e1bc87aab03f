[package]
name = "piscem"
version = "0.1.0"
edition = "2021"
publish = false

[dependencies]
anyhow = "1"
clap = { version = "4", features = ["derive"] }
num_cpus = "1"
prepare_fasta = "*"
tracing = "0.1"
tracing-subscriber = "0.3"
