[package]
name = "async_io_stream"
version = "0.1.0"
edition = "2021"
publish = false

[dependencies]
futures-core = "0.3"
futures-io = "0.3"
futures-sink = "0.3"
futures-task = "0.3"
pharos = "0.5"
tokio = { version = "1", default-features = false }
