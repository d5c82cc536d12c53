//! The back-end side of the vhost-user protocol.

pub mod vring;
pub mod features;
pub mod backend;
pub mod memory_map;
pub mod state;
pub mod handler;
pub mod laws;
pub mod call_laws;
