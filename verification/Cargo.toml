[package]
name = "uv_extract"
version = "0.1.0"
edition = "2021"
publish = false

[dependencies]
async-compression = { version = "*", features = ["tokio", "gzip", "bzip2", "zstd", "xz"] }
async_zip = { version = "*", features = ["deflate"] }
crc32fast = "*"
fs-err = { version = "*", features = ["tokio"] }
futures = "*"
tokio = { version = "*", features = ["fs", "io-util", "rt"] }
tokio-tar = "*"
tokio-util = { version = "*", features = ["compat"] }
tracing = "*"
