[package]
name = "wash"
version = "0.1.0"
edition = "2021"
publish = false

[dependencies]
oci-distribution = "=0.5.0"
wascap = "=0.5.2"
provider-archive = "=0.3.2"
nkeys = "=0.0.12"
structopt = "=0.3.26"
tokio = { version = "=0.2.25", features = ["rt-core", "rt-threaded"] }
spinners = "=1.2.0"
term-table = "=1.4.0"
