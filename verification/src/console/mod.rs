//! The console device.

pub mod port_queue_mapping;
pub mod port;
pub mod control;
pub mod worker;
pub mod device;
pub mod port_io;
pub mod process_rx;
pub mod process_tx;
pub mod vhost;
pub mod laws;
pub mod call_laws;
