[package]
name = "parent_finality"
version = "0.1.0"
edition = "2021"
publish = false

[dependencies]
hex = "0.4"
im = "15"
anyhow = "1"
async-stm = "*"
async-trait = "0.1"
cid = "0.11"
fvm_shared = "*"
num-derive = "0.4"
num-traits = "0.2"
strum = { version = "*", features = ["derive"] }
thiserror = "1"
tokio = { version = "1", features = ["rt", "time"] }
tracing = "0.1"
