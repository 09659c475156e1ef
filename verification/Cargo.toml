[package]
name = "local_ipc"
version = "0.1.0"
edition = "2021"
publish = false

[dependencies]
futures = { version = "=0.3.34", default-features = false, features = ["std"] }
libc = "=0.2.191"
log = "=0.4.34"
tokio = { version = "=1.54.1", features = ["net", "rt", "io-util", "time"] }

[dev-dependencies]
rustix = { version = "1", features = ["fs"] }
