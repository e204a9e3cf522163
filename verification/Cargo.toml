[package]
name = "freestack"
version = "0.1.0"
edition = "2021"
publish = false

[dependencies]
capnp = "=0.27.3"
capnp-rpc = "=0.27.3"
gj = "=0.2.0"
log = "=0.4.35"
rustc-serialize = "=0.3.25"
etcd = "=0.9.0"
futures = "=0.1.31"
tokio = "=0.1.22"
hyper = "=0.12.36"
