[package]
name = "bincode-grpc"
version = "0.1.0"
edition = "2021"
publish = false

[dependencies]
heck = "0.5"
syn = { version = "2", features = ["full"] }
quote = "1"
proc-macro2 = "1"
bincode = "2"
bytes = "1"
tonic = { version = "0.12", default-features = false, features = ["codegen"] }
thiserror = "1"
tracing = "0.1"
