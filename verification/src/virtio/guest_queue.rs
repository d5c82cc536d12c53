//! Operations on a virtqueue that touch the memory of the guest.
//!
//! The guest can change its memory at any time. So the contracts here say what becomes of the queue,
//! and what has to be in the memory, and nothing of what lies there.

use crate::virtio::virtqueue::QueueFields;
use std::sync::atomic::Ordering;
use virtio_queue::DescriptorChain;
use virtio_queue::Queue;
use virtio_queue::QueueT;
use virtio_queue::Reader;
use virtio_queue::Writer;
use vm_memory::GuestMemoryMmap;
use vstd::prelude::*;

verus! {

/// Declares [`vm_memory::GuestMemoryMmap`].
#[verifier::external_type_specification]
#[verifier::external_body]
#[verifier::reject_recursive_types(B)]
pub struct ExGuestMemoryMmap<B>(vm_memory::GuestMemoryMmap<B>);

/// Declares [`virtio_queue::DescriptorChain`].
#[verifier::external_type_specification]
#[verifier::external_body]
#[verifier::reject_recursive_types(M)]
pub struct ExDescriptorChain<M>(virtio_queue::DescriptorChain<M>);

/// Declares [`virtio_queue::Reader`].
#[verifier::external_type_specification]
#[verifier::external_body]
#[verifier::reject_recursive_types(B)]
pub struct ExReader<'a, B>(virtio_queue::Reader<'a, B>);

/// Declares [`virtio_queue::Writer`].
#[verifier::external_type_specification]
#[verifier::external_body]
#[verifier::reject_recursive_types(B)]
pub struct ExWriter<'a, B>(virtio_queue::Writer<'a, B>);

/// A part of a buffer, which lies in the memory of the guest.
#[derive(Debug, Copy, Clone, PartialEq, Eq, Structural)]
pub struct BufferPart {
    /// Where the part starts.
    pub addr: u64,
    /// The number of its bytes.
    pub len: u32,
    /// Whether the device may write to the part. Otherwise it may read from it.
    pub write_only: bool,
}

/// A buffer that was taken from a queue.
pub struct TakenBuffer<'a> {
    /// The descriptors of the buffer.
    pub chain: DescriptorChain<&'a GuestMemoryMmap<()>>,
    /// The parts of the buffer that the device uses, in their order.
    pub parts: Vec<BufferPart>,
}

/// The index of the descriptor that a chain of descriptors starts with.
pub uninterp spec fn chain_head(chain: DescriptorChain<&GuestMemoryMmap<()>>) -> u16;

/// The number of bytes that can be read from a buffer.
pub uninterp spec fn reader_len(reader: Reader<()>) -> usize;

/// The number of bytes that a buffer has room for.
pub uninterp spec fn writer_room(writer: Writer<()>) -> usize;

/// The position `count` entries behind `position`, where the first entry follows the last.
pub open spec fn advanced(position: u16, count: nat) -> u16 {
    ((position + count) % 0x1_0000) as u16
}

/// The state of a queue after `count` buffers were taken from it.
pub open spec fn with_taken(fields: QueueFields, count: nat) -> QueueFields {
    QueueFields { next_avail: advanced(fields.next_avail, count), ..fields }
}

/// The state of a queue after `count` buffers were given back through it.
pub open spec fn with_used(fields: QueueFields, count: nat) -> QueueFields {
    QueueFields { next_used: advanced(fields.next_used, count), ..fields }
}

/// The state of a queue after the buffer that was taken last was put back into it.
pub open spec fn with_rewound(fields: QueueFields) -> QueueFields {
    QueueFields {
        next_avail: crate::virtio::virtqueue::previous_position(fields.next_avail),
        ..fields
    }
}

/// Where the next buffer that can be taken is noted: in the entry of the available ring at the
/// current position.
pub open spec fn available_entry_address(fields: QueueFields) -> int {
    fields.avail_ring + 4 + 2 * (fields.next_avail as int % fields.size as int)
}

/// Whether buffers can be taken from a queue: it was marked ready and has an available ring, of
/// which both the index and the next entry are in the memory.
pub open spec fn can_take_buffer(fields: QueueFields, mem: GuestMemoryMmap<()>) -> bool {
    &&& fields.ready
    &&& fields.size > 0
    &&& fields.avail_ring != 0
    &&& fields.avail_ring + 2 <= u64::MAX
    &&& crate::virtio::guest_memory::memory_has_u16(mem, (fields.avail_ring + 2) as u64)
    &&& available_entry_address(fields) <= u64::MAX
    &&& crate::virtio::guest_memory::memory_has_u16(mem, available_entry_address(fields) as u64)
}

/// Whether the index of the used ring is in the memory.
pub open spec fn has_used_idx(fields: QueueFields, mem: GuestMemoryMmap<()>) -> bool {
    &&& fields.used_ring + 2 <= u64::MAX
    &&& crate::virtio::guest_memory::memory_has_u16(mem, (fields.used_ring + 2) as u64)
}

/// Where the next buffer that is given back is noted: in the entry of the used ring at the current
/// position.
pub open spec fn used_entry_address(fields: QueueFields) -> int {
    fields.used_ring + 4 + 8 * (fields.next_used as int % fields.size as int)
}

/// Whether the next entry of the used ring is in the memory.
pub open spec fn has_used_entry(fields: QueueFields, mem: GuestMemoryMmap<()>) -> bool {
    &&& used_entry_address(fields) <= u64::MAX
    &&& crate::virtio::guest_memory::memory_has_range(mem, used_entry_address(fields) as u64, 8)
}

/// Whether a buffer can be given back: the queue has a descriptor with its index, and both the next
/// entry and the index of the used ring are in the memory.
pub open spec fn can_add_used(fields: QueueFields, mem: GuestMemoryMmap<()>, head: u16) -> bool {
    &&& head < fields.size
    &&& has_used_entry(fields, mem)
    &&& has_used_idx(fields, mem)
}

/// The state of a queue after a buffer was to be given back. The position moves on as soon as the
/// entry was written, even if the index cannot be written.
pub open spec fn after_add_used(
    fields: QueueFields,
    mem: GuestMemoryMmap<()>,
    head: u16,
) -> QueueFields {
    if head < fields.size && has_used_entry(fields, mem) {
        with_used(fields, 1)
    } else {
        fields
    }
}

/// Where the device asks the driver for notifications: behind the entries of the used ring if event
/// indices are in use, and otherwise in the flags that the used ring starts with.
pub open spec fn notification_address(fields: QueueFields) -> int {
    if fields.event_idx_enabled {
        fields.used_ring + 4 + 8 * fields.size
    } else {
        fields.used_ring as int
    }
}

/// Whether the driver can be asked for notifications: both where to ask for them and the index in
/// the available ring, which tells whether there are buffers already, are in the memory.
pub open spec fn can_enable_notification(fields: QueueFields, mem: GuestMemoryMmap<()>) -> bool {
    &&& notification_address(fields) <= u64::MAX
    &&& crate::virtio::guest_memory::memory_has_u16(mem, notification_address(fields) as u64)
    &&& fields.avail_ring + 2 <= u64::MAX
    &&& crate::virtio::guest_memory::memory_has_u16(mem, (fields.avail_ring + 2) as u64)
}

/// A queue from which a buffer was taken, and into which it was put back, is as it was.
pub proof fn lemma_rewind_undoes_take(fields: QueueFields)
    ensures
        with_rewound(with_taken(fields, 1)) == fields,
{
}

/// [`QueueT::pop_descriptor_chain`] on [`Queue`]: takes the next buffer, if the queue is ready, has
/// an available ring in the memory and the driver has put a buffer there. Only then the position
/// in the available ring moves on, by one entry. Which buffer it is, and whether there is one, rests on
/// the memory of the guest.
#[verifier::external_body]
pub(crate) fn queue_pop_descriptor_chain<'a>(
    queue: &mut Queue,
    mem: &'a GuestMemoryMmap<()>,
) -> (chain: Option<DescriptorChain<&'a GuestMemoryMmap<()>>>)
    ensures
        chain is Some ==> can_take_buffer(
            crate::virtio::virtqueue::queue_fields(*old(queue)),
            *mem,
        ),
        crate::virtio::virtqueue::queue_fields(*final(queue)) == if chain is Some {
            with_taken(crate::virtio::virtqueue::queue_fields(*old(queue)), 1)
        } else {
            crate::virtio::virtqueue::queue_fields(*old(queue))
        },
{
    queue.pop_descriptor_chain(mem)
}

/// [`DescriptorChain::head_index`]: the index of the first descriptor.
#[verifier::external_body]
pub(crate) fn chain_head_index<'a>(chain: &DescriptorChain<&'a GuestMemoryMmap<()>>) -> (head: u16)
    ensures
        head == chain_head(*chain),
{
    chain.head_index()
}

/// [`DescriptorChain::writable`] on a copy of the chain: the parts that the device may write to. Which
/// parts there are rests on the memory of the guest.
#[verifier::external_body]
pub(crate) fn chain_writable<'a>(chain: &DescriptorChain<&'a GuestMemoryMmap<()>>) -> (parts: Vec<
    BufferPart,
>)
    ensures
        forall|i: int| 0 <= i < parts@.len() ==> (#[trigger] parts@[i]).write_only,
{
    let parts = chain.clone().writable();
    parts.map(
        |part| BufferPart {
            addr: part.addr().0,
            len: part.len(),
            write_only: part.is_write_only(),
        },
    ).collect()
}

/// [`DescriptorChain::readable`] on a copy of the chain: the parts that the device may read from.
/// Which parts there are rests on the memory of the guest.
#[verifier::external_body]
pub(crate) fn chain_readable<'a>(chain: &DescriptorChain<&'a GuestMemoryMmap<()>>) -> (parts: Vec<
    BufferPart,
>)
    ensures
        forall|i: int| 0 <= i < parts@.len() ==> !(#[trigger] parts@[i]).write_only,
{
    let parts = chain.clone().readable();
    parts.map(
        |part| BufferPart {
            addr: part.addr().0,
            len: part.len(),
            write_only: part.is_write_only(),
        },
    ).collect()
}

/// [`DescriptorChain::reader`] on a copy of the chain: fails if a descriptor for the device to
/// read is not in the memory. That rests on the memory of the guest.
#[verifier::external_body]
pub(crate) fn chain_reader<'a>(
    chain: &DescriptorChain<&'a GuestMemoryMmap<()>>,
    mem: &'a GuestMemoryMmap<()>,
) -> (reader: Result<Reader<'a, ()>, virtio_queue::Error>) {
    chain.clone().reader(mem)
}

/// [`DescriptorChain::writer`]: fails if a descriptor for the device to write to is not in the
/// memory. That rests on the memory of the guest.
#[verifier::external_body]
pub(crate) fn chain_writer<'a>(
    chain: DescriptorChain<&'a GuestMemoryMmap<()>>,
    mem: &'a GuestMemoryMmap<()>,
) -> (writer: Result<Writer<'a, ()>, virtio_queue::Error>) {
    chain.writer(mem)
}

/// [`Reader::read_obj`] for eight bytes: fails exactly if fewer are left in the buffer. The bytes rest
/// on the memory of the guest, and nothing is said of them.
#[verifier::external_body]
pub(crate) fn reader_read_obj<'a>(reader: &mut Reader<'a, ()>) -> (bytes: Result<[u8; 8], ()>)
    ensures
        bytes is Ok <==> 8 <= reader_len(*old(reader)),
{
    reader.read_obj::<[u8; 8]>().map_err(|_| ())
}

/// [`Writer::available_bytes`]: the room that is left in the buffer.
#[verifier::external_body]
pub(crate) fn writer_available_bytes<'a>(writer: &Writer<'a, ()>) -> (room: usize)
    ensures
        room == writer_room(*writer),
{
    writer.available_bytes()
}

/// [`QueueT::used_idx`] on [`Queue`]: the index in the used ring, as it is in the memory of the
/// guest. It fails exactly if the address of the index exceeds 64 bits or is not in the memory.
/// Nothing is said of the index itself, which the guest can change.
#[verifier::external_body]
pub(crate) fn queue_used_idx(queue: &Queue, mem: &GuestMemoryMmap<()>) -> (result: Result<
    u16,
    virtio_queue::Error,
>)
    ensures
        result is Ok <==> has_used_idx(crate::virtio::virtqueue::queue_fields(*queue), *mem),
{
    queue.used_idx(mem, Ordering::Relaxed).map(|index| index.0)
}

/// [`QueueT::enable_notification`] on [`Queue`]: asks the driver in the memory of the guest for
/// notifications, and tells whether there are buffers already. It fails exactly if an address
/// that it writes to or reads from exceeds 64 bits or is not in the memory, and changes nothing in
/// the queue. Whether there are buffers rests on the memory of the guest, and nothing is said of
/// it.
#[verifier::external_body]
pub(crate) fn queue_enable_notification(queue: &mut Queue, mem: &GuestMemoryMmap<()>) -> (result:
    Result<bool, virtio_queue::Error>)
    ensures
        crate::virtio::virtqueue::queue_fields(*final(queue))
            == crate::virtio::virtqueue::queue_fields(*old(queue)),
        result is Ok <==> can_enable_notification(
            crate::virtio::virtqueue::queue_fields(*old(queue)),
            *mem,
        ),
{
    queue.enable_notification(mem)
}

/// [`QueueT::disable_notification`] on [`Queue`]: asks the driver in the memory of the guest for no
/// notifications. With event indices there is nothing to ask for. Otherwise it fails exactly if
/// the flags of the used ring are not in the memory. It changes nothing in the queue.
#[verifier::external_body]
pub(crate) fn queue_disable_notification(queue: &mut Queue, mem: &GuestMemoryMmap<()>) -> (result:
    Result<(), virtio_queue::Error>)
    ensures
        crate::virtio::virtqueue::queue_fields(*final(queue))
            == crate::virtio::virtqueue::queue_fields(*old(queue)),
        result is Ok <==> crate::virtio::virtqueue::queue_fields(*old(queue)).event_idx_enabled
            || crate::virtio::guest_memory::memory_has_u16(*mem, crate::virtio::virtqueue::queue_fields(*old(queue)).used_ring),
{
    queue.disable_notification(mem)
}

} // verus!
