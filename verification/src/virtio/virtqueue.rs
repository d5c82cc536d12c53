//! The split virtqueue of the `virtio_queue` crate, as the rest of the library sees it.
//!
//! The queue itself stays the one of that crate: this module declares it to Verus, names the
//! plain values it holds and wraps the operations on it that touch no guest memory.

use virtio_queue::Queue;
use virtio_queue::QueueOwnedT;
use virtio_queue::QueueT;
use vm_memory::GuestAddress;
use vstd::prelude::*;

verus! {

/// Declares [`virtio_queue::Queue`].
#[verifier::external_type_specification]
#[verifier::external_body]
pub struct ExQueue(virtio_queue::Queue);

/// Declares [`virtio_queue::Error`].
#[verifier::external_type_specification]
#[verifier::external_body]
pub struct ExQueueError(virtio_queue::Error);

/// The plain values a queue holds.
pub struct QueueFields {
    /// The largest size the device offers.
    pub max_size: u16,
    /// The size the driver selected.
    pub size: u16,
    /// Whether the driver has finished configuring the queue.
    pub ready: bool,
    /// Whether `VIRTIO_F_RING_EVENT_IDX` is in use.
    pub event_idx_enabled: bool,
    /// Position of the next entry to take from the available ring.
    pub next_avail: u16,
    /// Position of the next entry to put into the used ring.
    pub next_used: u16,
    /// Guest physical address of the descriptor table.
    pub desc_table: u64,
    /// Guest physical address of the available ring.
    pub avail_ring: u64,
    /// Guest physical address of the used ring.
    pub used_ring: u64,
}

/// What `queue` holds.
pub uninterp spec fn queue_fields(queue: Queue) -> QueueFields;

/// Why a queue, or an address given to it, was refused.
#[derive(Debug, Clone, Copy, PartialEq, Eq, Structural)]
pub enum VirtQueueError {
    /// The maximum size is no power of two, or exceeds what virtio allows.
    InvalidMaxSize,
    /// The descriptor table is not aligned to 16 bytes.
    InvalidDescTableAlign,
    /// The available ring is not aligned to 2 bytes.
    InvalidAvailRingAlign,
    /// The used ring is not aligned to 4 bytes.
    InvalidUsedRingAlign,
}

/// The sizes virtio allows for a queue: the powers of two up to 32768.
pub open spec fn is_queue_size(size: u16) -> bool {
    0 < size <= 32768 && size & ((size - 1) as u16) == 0
}

/// The state of a queue that was just made with room for `max_size` entries.
pub open spec fn new_queue_fields(max_size: u16) -> QueueFields {
    QueueFields {
        max_size,
        size: max_size,
        ready: false,
        event_idx_enabled: false,
        next_avail: 0,
        next_used: 0,
        desc_table: 0,
        avail_ring: 0,
        used_ring: 0,
    }
}

/// [`QueueT::new`] on [`Queue`]: refuses every maximum size that is no power of two or exceeds
/// 32768, and otherwise makes a stopped queue of that size with everything else zero.
#[verifier::external_body]
pub(crate) fn queue_new(max_size: u16) -> (result: Result<Queue, virtio_queue::Error>)
    ensures
        result is Ok <==> is_queue_size(max_size),
        result matches Ok(queue) ==> queue_fields(queue) == new_queue_fields(max_size),
{
    Queue::new(max_size)
}

/// [`QueueT::ready`] on [`Queue`]: whether the queue has been marked ready.
#[verifier::external_body]
pub(crate) fn queue_ready(queue: &Queue) -> (ready: bool)
    ensures
        ready == queue_fields(*queue).ready,
{
    queue.ready()
}

/// [`QueueT::next_avail`] on [`Queue`]: the position in the available ring.
#[verifier::external_body]
pub(crate) fn queue_next_avail(queue: &Queue) -> (next_avail: u16)
    ensures
        next_avail == queue_fields(*queue).next_avail,
{
    queue.next_avail()
}

/// [`QueueT::event_idx_enabled`] on [`Queue`]: whether event indices are in use.
#[verifier::external_body]
pub(crate) fn queue_event_idx_enabled(queue: &Queue) -> (enabled: bool)
    ensures
        enabled == queue_fields(*queue).event_idx_enabled,
{
    queue.event_idx_enabled()
}

/// The position one entry before `position`, where the first entry follows the last.
pub open spec fn previous_position(position: u16) -> u16 {
    if position == 0 {
        u16::MAX
    } else {
        (position - 1) as u16
    }
}

/// [`QueueOwnedT::go_to_previous_position`] on [`Queue`]: moves the position in the available ring
/// back by one entry, from the first to the last, and changes nothing else.
#[verifier::external_body]
pub(crate) fn queue_go_to_previous_position(queue: &mut Queue)
    ensures
        queue_fields(*final(queue)) == (QueueFields {
            next_avail: previous_position(queue_fields(*old(queue)).next_avail),
            ..queue_fields(*old(queue))
        }),
{
    queue.go_to_previous_position()
}

/// [`QueueT::set_ready`] on [`Queue`]: marks the queue, changes nothing else.
#[verifier::external_body]
pub(crate) fn queue_set_ready(queue: &mut Queue, ready: bool)
    ensures
        queue_fields(*final(queue)) == (QueueFields { ready, ..queue_fields(*old(queue)) }),
{
    queue.set_ready(ready)
}

/// [`QueueT::set_event_idx`] on [`Queue`]: switches event indices, changes nothing else.
#[verifier::external_body]
pub(crate) fn queue_set_event_idx(queue: &mut Queue, enabled: bool)
    ensures
        queue_fields(*final(queue)) == (QueueFields {
            event_idx_enabled: enabled,
            ..queue_fields(*old(queue))
        }),
{
    queue.set_event_idx(enabled)
}

/// The state after the driver asks for `size` entries: a size that is no power of two, or larger
/// than the device offers, is ignored.
pub open spec fn with_size(fields: QueueFields, size: u16) -> QueueFields {
    if is_queue_size(size) && size <= fields.max_size {
        QueueFields { size, ..fields }
    } else {
        fields
    }
}

/// [`QueueT::set_size`] on [`Queue`]: takes the size over if it is valid for the queue and
/// otherwise leaves the queue as it is.
#[verifier::external_body]
pub(crate) fn queue_set_size(queue: &mut Queue, size: u16)
    ensures
        queue_fields(*final(queue)) == with_size(queue_fields(*old(queue)), size),
{
    queue.set_size(size)
}

/// [`QueueT::set_next_avail`] on [`Queue`]: moves the position in the available ring, changes
/// nothing else.
#[verifier::external_body]
pub(crate) fn queue_set_next_avail(queue: &mut Queue, next_avail: u16)
    ensures
        queue_fields(*final(queue)) == (QueueFields { next_avail, ..queue_fields(*old(queue)) }),
{
    queue.set_next_avail(next_avail)
}

/// [`QueueT::set_next_used`] on [`Queue`]: moves the position in the used ring, changes nothing
/// else.
#[verifier::external_body]
pub(crate) fn queue_set_next_used(queue: &mut Queue, next_used: u16)
    ensures
        queue_fields(*final(queue)) == (QueueFields { next_used, ..queue_fields(*old(queue)) }),
{
    queue.set_next_used(next_used)
}

/// [`Queue::try_set_desc_table_address`]: takes an address over if it is a multiple of 16 and
/// otherwise fails and leaves the queue as it is.
#[verifier::external_body]
pub(crate) fn queue_try_set_desc_table(queue: &mut Queue, address: u64) -> (result: Result<
    (),
    virtio_queue::Error,
>)
    ensures
        result is Ok <==> address % 16 == 0,
        queue_fields(*final(queue)) == if address % 16 == 0 {
            QueueFields { desc_table: address, ..queue_fields(*old(queue)) }
        } else {
            queue_fields(*old(queue))
        },
{
    queue.try_set_desc_table_address(GuestAddress(address))
}

/// [`Queue::try_set_avail_ring_address`]: takes an address over if it is even and otherwise fails
/// and leaves the queue as it is.
#[verifier::external_body]
pub(crate) fn queue_try_set_avail_ring(queue: &mut Queue, address: u64) -> (result: Result<
    (),
    virtio_queue::Error,
>)
    ensures
        result is Ok <==> address % 2 == 0,
        queue_fields(*final(queue)) == if address % 2 == 0 {
            QueueFields { avail_ring: address, ..queue_fields(*old(queue)) }
        } else {
            queue_fields(*old(queue))
        },
{
    queue.try_set_avail_ring_address(GuestAddress(address))
}

/// [`Queue::try_set_used_ring_address`]: takes an address over if it is a multiple of 4 and
/// otherwise fails and leaves the queue as it is.
#[verifier::external_body]
pub(crate) fn queue_try_set_used_ring(queue: &mut Queue, address: u64) -> (result: Result<
    (),
    virtio_queue::Error,
>)
    ensures
        result is Ok <==> address % 4 == 0,
        queue_fields(*final(queue)) == if address % 4 == 0 {
            QueueFields { used_ring: address, ..queue_fields(*old(queue)) }
        } else {
            queue_fields(*old(queue))
        },
{
    queue.try_set_used_ring_address(GuestAddress(address))
}

} // verus!
