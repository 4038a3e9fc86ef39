//! A client library for a virtualization cluster's management API: resolving
//! virtual machines to their nodes, interpreting task status while it is
//! polled, and building the requests and reports of snapshot operations.
pub mod client;
pub mod cluster;
pub mod config;
pub mod error;
pub mod paths;
pub mod snapshot;
pub mod task;
pub mod text;
