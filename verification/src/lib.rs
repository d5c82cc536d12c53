//! Virtio devices and the vhost-user machinery that serves them.

pub mod events;
pub mod virtio;
pub mod vhost_user;
pub mod console;
pub mod gpu;
