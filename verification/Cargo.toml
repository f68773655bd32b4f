[package]
name = "workflow_store"
version = "0.1.0"
edition = "2021"
publish = false

[dependencies]
base64 = "0.13"
home = "0.5"
async-std = "1"
web-sys = { version = "0.3", features = ["Window", "Storage"] }
