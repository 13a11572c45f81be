[package]
name = "psylink"
version = "0.1.0"
edition = "2021"
publish = false

[dependencies]
bincode = { version = "=2.0.0-rc.3", default-features = false }
burn = { version = "=0.8.0", default-features = false, features = ["std"] }
slint = { version = "1", default-features = false, features = ["std", "compat-1-2"] }
tokio = { version = "=1.54.1", features = ["rt-multi-thread", "time"] }

[dev-dependencies]
approx_eq = "=0.1.8"
