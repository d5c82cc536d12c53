//! The GPU device.

pub mod config;
pub mod device;
pub mod protocol;
pub mod worker;
pub mod vhost;
pub mod laws;
pub mod call_laws;
