[package]
name = "delta_ostree"
version = "0.1.0"
edition = "2021"
publish = false

[dependencies]
anyhow = "=1.0.104"
cap-std-ext = "=5.1.2"
fn-error-context = "=0.2.1"
futures-util = "=0.3.34"
oci-delta = "=0.1.1"
oci-spec = "=0.10.0"
tokio = { version = "=1.54.1", features = ["io-util", "rt", "sync"] }
tokio-util = { version = "=0.7.20", features = ["io", "io-util"] }
tracing = "=0.1.44"
