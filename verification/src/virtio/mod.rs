//! What virtio devices have in common.

pub mod queue_args;
pub mod virtqueue;
pub mod guest_memory;
pub mod guest_queue;
pub mod locked_queue;
pub mod device_queue;
pub mod device;
pub mod le_bytes;
pub mod mock;
pub mod laws;
