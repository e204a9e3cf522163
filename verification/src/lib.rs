//! Identity service storage layer: errors, a key-value store abstraction,
//! an etcd codec and the password-authentication decisions.

pub mod identity3;
pub mod kvstore;
pub mod rpc;
