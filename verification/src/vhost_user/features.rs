//! Feature bits of the vhost-user protocol, as the `vhost` and `virtio_bindings` crates define them.

use vhost::vhost_user::message::{VhostUserProtocolFeatures, VhostUserVirtioFeatures};
use virtio_bindings::virtio_ring::VIRTIO_RING_F_EVENT_IDX;
use vstd::prelude::*;

verus! {

/// The virtio feature bit that announces vhost-user protocol features.
pub const PROTOCOL_FEATURES: u64 = 0x4000_0000;

/// Support for multiple queues.
pub const PROTOCOL_MQ: u64 = 0x1;

/// Support for replies to requests that ask for one.
pub const PROTOCOL_REPLY_ACK: u64 = 0x8;

/// Support for the configuration space of the device.
pub const PROTOCOL_CONFIG: u64 = 0x200;

/// Lets the back-end send descriptors to the front-end.
pub const PROTOCOL_BACKEND_SEND_FD: u64 = 0x400;

/// Support for shared objects.
pub const PROTOCOL_SHARED_OBJECT: u64 = 0x4_0000;

/// Position of the feature bit for event indices in virtqueues.
pub const RING_F_EVENT_IDX: u32 = 29;

/// The bits of [`VhostUserVirtioFeatures::PROTOCOL_FEATURES`].
#[verifier::external_body]
pub(crate) fn protocol_features_bit() -> (bits: u64)
    ensures
        bits == PROTOCOL_FEATURES,
{
    VhostUserVirtioFeatures::PROTOCOL_FEATURES.bits()
}

/// The bits of [`VhostUserProtocolFeatures::MQ`].
#[verifier::external_body]
pub(crate) fn protocol_mq() -> (bits: u64)
    ensures
        bits == PROTOCOL_MQ,
{
    VhostUserProtocolFeatures::MQ.bits()
}

/// The bits of [`VhostUserProtocolFeatures::REPLY_ACK`].
#[verifier::external_body]
pub(crate) fn protocol_reply_ack() -> (bits: u64)
    ensures
        bits == PROTOCOL_REPLY_ACK,
{
    VhostUserProtocolFeatures::REPLY_ACK.bits()
}

/// The bits of [`VhostUserProtocolFeatures::CONFIG`].
#[verifier::external_body]
pub(crate) fn protocol_config() -> (bits: u64)
    ensures
        bits == PROTOCOL_CONFIG,
{
    VhostUserProtocolFeatures::CONFIG.bits()
}

/// The bits of [`VhostUserProtocolFeatures::BACKEND_SEND_FD`].
#[verifier::external_body]
pub(crate) fn protocol_backend_send_fd() -> (bits: u64)
    ensures
        bits == PROTOCOL_BACKEND_SEND_FD,
{
    VhostUserProtocolFeatures::BACKEND_SEND_FD.bits()
}

/// The bits of [`VhostUserProtocolFeatures::SHARED_OBJECT`].
#[verifier::external_body]
pub(crate) fn protocol_shared_object() -> (bits: u64)
    ensures
        bits == PROTOCOL_SHARED_OBJECT,
{
    VhostUserProtocolFeatures::SHARED_OBJECT.bits()
}

/// The value of [`VIRTIO_RING_F_EVENT_IDX`].
#[verifier::external_body]
pub(crate) fn ring_f_event_idx() -> (position: u32)
    ensures
        position == RING_F_EVENT_IDX,
{
    VIRTIO_RING_F_EVENT_IDX
}

} // verus!
