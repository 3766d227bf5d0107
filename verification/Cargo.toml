[package]
name = "deadpool-diesel"
version = "0.1.0"
edition = "2021"
publish = false

[dependencies]
async-std = "1"
async-trait = "0.1"
deadpool = "0.7"
diesel = "1.4"
tokio = { version = "1", features = ["rt"] }
