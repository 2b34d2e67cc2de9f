[package]
name = "content_service"
version = "0.1.0"
edition = "2021"
publish = false

[dependencies]
async-std = "1"
async-trait = "0.1"
aws-config = "1"
aws-sdk-s3 = "1"
base64 = "0.13"
cxx = "1"
futures = "0.3"
http = "1"
infer = "*"
itertools = "*"
kv-log-macro = "1"
mockall = "*"
once_cell = "1"
proc-macro2 = "1"
quote = "1"
rand = "0.10"
reqwest = { version = "0.12", features = ["json", "stream"] }
serde = { version = "1", features = ["derive"] }
serde_json = { version = "1", features = ["float_roundtrip"] }
sha2 = "0.10"
strong_id = "*"
syn = { version = "2", features = ["full"] }
tokio = { version = "1", features = ["macros", "rt-multi-thread", "sync", "time"] }
tonic = "*"
url = "2"
urlencoding = "2"
