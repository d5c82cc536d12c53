//! What holds of a queue, whatever is done with it.

use crate::virtio::guest_queue::TakenBuffer;
use crate::virtio::locked_queue::{
    LockedQueue, LockedQueueView, NotificationRequest, ReadableBuffer, WritableBuffer,
};
use crate::virtio::queue_args::QueueArgs;
use crate::virtio::virtqueue::QueueFields;
use virtio_queue::DescriptorChain;
use virtio_queue::Queue;
use vm_memory::GuestMemoryMmap;
use vstd::prelude::*;

verus! {

/// Whether two states of a queue differ at most in the positions in its rings.
pub open spec fn same_rings(a: QueueFields, b: QueueFields) -> bool {
    &&& a.max_size == b.max_size
    &&& a.size == b.size
    &&& a.ready == b.ready
    &&& a.event_idx_enabled == b.event_idx_enabled
    &&& a.desc_table == b.desc_table
    &&& a.avail_ring == b.avail_ring
    &&& a.used_ring == b.used_ring
}

/// Whether nothing was read, written, given back or asked for between two states of a queue.
pub open spec fn same_traffic(before: LockedQueueView, after: LockedQueueView) -> bool {
    &&& after.record.read == before.record.read
    &&& after.record.written == before.record.written
    &&& after.record.given_back == before.record.given_back
    &&& after.record.notifications == before.record.notifications
}

/// Taking a buffer moves the position in the available ring on by one, and from the last to the first,
/// and nothing else. Without a buffer nothing moves.
pub proof fn lemma_taken_buffers_move_the_position(
    mem: &GuestMemoryMmap<()>,
    chain: Option<DescriptorChain<&GuestMemoryMmap<()>>>,
)
    ensures
        forall|queue: &mut LockedQueue| #[trigger]
            call_ensures(LockedQueue::take, (queue, mem), chain) ==> {
                let before = (*queue)@;
                let after = (*final(queue))@;
                &&& same_rings(before.fields, after.fields)
                &&& same_traffic(before, after)
                &&& after.fields.next_used == before.fields.next_used
                &&& after.record.parts == before.record.parts
                &&& chain matches Some(chain) ==> {
                    &&& after.fields.next_avail == before.fields.next_avail + 1
                        || before.fields.next_avail == 65535 && after.fields.next_avail == 0
                    &&& after.record.misses == before.record.misses
                    &&& after.record.taken.len() == before.record.taken.len() + 1
                    &&& after.record.taken.drop_last() == before.record.taken
                    &&& after.record.taken.last() == crate::virtio::guest_queue::chain_head(chain)
                }
                &&& chain is None ==> {
                    &&& after.fields == before.fields
                    &&& after.record.taken == before.record.taken
                    &&& after.record.misses == before.record.misses + 1
                }
            },
{
    assert forall|queue: &mut LockedQueue| #[trigger]
        call_ensures(LockedQueue::take, (queue, mem), chain) && chain is Some implies
        (*final(queue))@.record.taken.drop_last() == (*queue)@.record.taken by {
        assert((*final(queue))@.record.taken.drop_last() =~= (*queue)@.record.taken);
    }
}

/// Taking a buffer to write to it, or to read from it, takes it like any other, and finds all parts of
/// it that may be written to, or read from.
pub proof fn lemma_parts_of_taken_buffers(
    mem: &GuestMemoryMmap<()>,
    taken: Option<TakenBuffer>,
    chain: Option<DescriptorChain<&GuestMemoryMmap<()>>>,
    i: int,
)
    ensures
        forall|queue: &mut LockedQueue|
            (#[trigger] call_ensures(LockedQueue::take_to_write, (queue, mem), taken)) ==> {
                let before = (*queue)@;
                let after = (*final(queue))@;
                &&& same_rings(before.fields, after.fields)
                &&& same_traffic(before, after)
                &&& after.fields.next_used == before.fields.next_used
                &&& taken matches Some(taken) ==> {
                    let head = crate::virtio::guest_queue::chain_head(taken.chain);
                    &&& 0 <= i < taken.parts@.len() ==> taken.parts@[i].write_only
                    &&& after.fields.next_avail == before.fields.next_avail + 1
                        || before.fields.next_avail == 65535 && after.fields.next_avail == 0
                    &&& after.record.misses == before.record.misses
                    &&& after.record.taken == before.record.taken.push(head)
                    &&& after.record.parts.len() == before.record.parts.len() + 1
                    &&& after.record.parts.last().head == head
                    &&& after.record.parts.last().parts == taken.parts@
                }
                &&& taken is None ==> {
                    &&& after.fields == before.fields
                    &&& after.record.taken == before.record.taken
                    &&& after.record.parts == before.record.parts
                    &&& after.record.misses == before.record.misses + 1
                }
            },
        forall|queue: &mut LockedQueue|
            (#[trigger] call_ensures(LockedQueue::take_to_read, (queue, mem), taken)) ==> {
                let before = (*queue)@;
                let after = (*final(queue))@;
                &&& same_rings(before.fields, after.fields)
                &&& same_traffic(before, after)
                &&& after.fields.next_used == before.fields.next_used
                &&& taken matches Some(taken) ==> {
                    let head = crate::virtio::guest_queue::chain_head(taken.chain);
                    &&& 0 <= i < taken.parts@.len() ==> !taken.parts@[i].write_only
                    &&& after.fields.next_avail == before.fields.next_avail + 1
                        || before.fields.next_avail == 65535 && after.fields.next_avail == 0
                    &&& after.record.misses == before.record.misses
                    &&& after.record.taken == before.record.taken.push(head)
                    &&& after.record.parts.len() == before.record.parts.len() + 1
                    &&& after.record.parts.last().head == head
                    &&& after.record.parts.last().parts == taken.parts@
                }
                &&& taken is None ==> {
                    &&& after.fields == before.fields
                    &&& after.record.taken == before.record.taken
                    &&& after.record.parts == before.record.parts
                    &&& after.record.misses == before.record.misses + 1
                }
            },
{
}

/// A buffer that is taken and put back at once leaves the queue as it was.
pub proof fn lemma_put_back_undoes_take(
    mem: &GuestMemoryMmap<()>,
    chain: Option<DescriptorChain<&GuestMemoryMmap<()>>>,
)
    ensures
        forall|taking: &mut LockedQueue, putting: &mut LockedQueue|
            (#[trigger] call_ensures(LockedQueue::take, (taking, mem), chain)) && (
            #[trigger] call_ensures(LockedQueue::put_back, (putting,), ())) && *putting == *final(taking) && chain is Some ==> (*final(putting))@ == (*taking)@,
{
    assert forall|taking: &mut LockedQueue, putting: &mut LockedQueue|
        (#[trigger] call_ensures(LockedQueue::take, (taking, mem), chain)) && (
        #[trigger] call_ensures(LockedQueue::put_back, (putting,), ())) && *putting == *final(taking) && chain is Some implies (*final(putting))@ == (*taking)@ by {
        let head = crate::virtio::guest_queue::chain_head(chain->0);
        crate::virtio::locked_queue::lemma_rewind_undoes_take((*taking)@, head);
    }
}

/// Reading a message, and asking for notifications or for none, moves nothing in the rings. What was
/// read, and what was asked for, is what is remembered of it.
pub proof fn lemma_reading_and_asking_move_nothing(
    mem: &GuestMemoryMmap<()>,
    message: Result<[u8; 8], ()>,
    pending: Result<bool, virtio_queue::Error>,
    disabled: Result<(), virtio_queue::Error>,
)
    ensures
        forall|queue: &mut LockedQueue, buffer: &mut ReadableBuffer|
            (#[trigger] call_ensures(LockedQueue::read, (queue, buffer), message)) ==> {
                let before = (*queue)@;
                let after = (*final(queue))@;
                &&& message is Ok <==> (*buffer).len() >= 8
                &&& after.fields == before.fields
                &&& after.record.taken == before.record.taken
                &&& after.record.written == before.record.written
                &&& after.record.given_back == before.record.given_back
                &&& after.record.read.len() == before.record.read.len() + 1
                &&& after.record.read.last().head == (*buffer).head()
                &&& message matches Ok(bytes) ==> after.record.read.last().bytes == Some(bytes@)
                &&& message is Err ==> after.record.read.last().bytes is None
            },
        forall|queue: &mut LockedQueue|
            (#[trigger] call_ensures(LockedQueue::enable_notification, (queue, mem), pending))
                ==> {
                let before = (*queue)@;
                let after = (*final(queue))@;
                &&& after.fields == before.fields
                &&& after.record.taken == before.record.taken
                &&& after.record.given_back == before.record.given_back
                &&& pending is Err ==> after == before
                &&& pending matches Ok(pending) ==> after.record.notifications
                    == before.record.notifications.push(NotificationRequest::Enable { pending })
            },
        forall|queue: &mut LockedQueue|
            (#[trigger] call_ensures(LockedQueue::disable_notification, (queue, mem), disabled))
                ==> {
                let before = (*queue)@;
                let after = (*final(queue))@;
                &&& before.fields.event_idx_enabled ==> disabled is Ok
                &&& after.fields == before.fields
                &&& after.record.taken == before.record.taken
                &&& after.record.given_back == before.record.given_back
                &&& disabled is Err ==> after == before
                &&& disabled is Ok ==> after.record.notifications
                    == before.record.notifications.push(NotificationRequest::Disable)
            },
{
}

/// A queue that was just locked holds what it held, and so does one that is let go.
pub proof fn lemma_locked_queue_is_the_queue(
    queue: Queue,
    locked: LockedQueue,
    event_idx: bool,
    back: Queue,
)
    requires
        call_ensures(LockedQueue::new, (queue,), locked),
        call_ensures(LockedQueue::event_idx_enabled, (&locked,), event_idx),
        call_ensures(LockedQueue::into_queue, (locked,), back),
    ensures
        crate::virtio::virtqueue::queue_fields(back) == crate::virtio::virtqueue::queue_fields(
            queue,
        ),
        event_idx == crate::virtio::virtqueue::queue_fields(queue).event_idx_enabled,
        locked@.record.taken.len() == 0,
        locked@.record.misses == 0,
        locked@.record.parts.len() == 0,
        locked@.record.read.len() == 0,
        locked@.record.written.len() == 0,
        locked@.record.given_back.len() == 0,
        locked@.record.notifications.len() == 0,
{
}

/// Where the rings of a queue are looked at: the entries of the available ring, of two bytes each,
/// and those of the used ring, of eight bytes each, follow the flags and the index. Positions
/// that differ by the number of entries share their entry.
pub proof fn lemma_entries_follow_the_index(fields: QueueFields, other: QueueFields)
    requires
        fields.size > 0,
        same_rings(fields, other),
        other.next_avail == fields.next_avail + fields.size,
        other.next_used == fields.next_used + fields.size,
    ensures
        crate::virtio::guest_queue::available_entry_address(fields)
            == crate::virtio::guest_queue::available_entry_address(other),
        crate::virtio::guest_queue::used_entry_address(fields)
            == crate::virtio::guest_queue::used_entry_address(other),
        fields.next_avail < fields.size ==> crate::virtio::guest_queue::available_entry_address(
            fields,
        ) == fields.avail_ring + 4 + 2 * fields.next_avail,
        fields.next_used < fields.size ==> crate::virtio::guest_queue::used_entry_address(fields)
            == fields.used_ring + 4 + 8 * fields.next_used,
{
    vstd::arithmetic::div_mod::lemma_mod_add_multiples_vanish(
        fields.next_avail as int,
        fields.size as int,
    );
    vstd::arithmetic::div_mod::lemma_mod_add_multiples_vanish(
        fields.next_used as int,
        fields.size as int,
    );
    if fields.next_avail < fields.size {
        vstd::arithmetic::div_mod::lemma_small_mod(fields.next_avail as nat, fields.size as nat);
    }
    if fields.next_used < fields.size {
        vstd::arithmetic::div_mod::lemma_small_mod(fields.next_used as nat, fields.size as nat);
    }
}

/// The bytes of a number are its digits to the base 256, the lowest first.
pub proof fn lemma_digits_of_a_number(value: nat, count: nat, i: int)
    requires
        0 <= i < count,
    ensures
        crate::virtio::le_bytes::le_bytes(value, count).len() == count,
        i == 0 ==> crate::virtio::le_bytes::le_bytes(value, count)[i] == value % 256,
        i == 1 ==> crate::virtio::le_bytes::le_bytes(value, count)[i] == value / 256 % 256,
        i == 2 ==> crate::virtio::le_bytes::le_bytes(value, count)[i] == value / 65536 % 256,
        i == 3 ==> crate::virtio::le_bytes::le_bytes(value, count)[i] == value / 16777216 % 256,
{
    reveal_with_fuel(crate::virtio::le_bytes::le_bytes, 4);
    crate::virtio::le_bytes::lemma_le_bytes_len(value, count);
    vstd::arithmetic::div_mod::lemma_div_denominator(value as int, 256, 256);
    vstd::arithmetic::div_mod::lemma_div_denominator(value as int, 65536, 256);
    if i >= 1 {
        crate::virtio::le_bytes::lemma_le_bytes_len(value / 256, (count - 1) as nat);
        assert(crate::virtio::le_bytes::le_bytes(value, count)[i]
            == crate::virtio::le_bytes::le_bytes(value / 256, (count - 1) as nat)[i - 1]);
    }
    if i >= 2 {
        crate::virtio::le_bytes::lemma_le_bytes_len(value / 256 / 256, (count - 2) as nat);
        assert(crate::virtio::le_bytes::le_bytes(value / 256, (count - 1) as nat)[i - 1]
            == crate::virtio::le_bytes::le_bytes(value / 256 / 256, (count - 2) as nat)[i - 2]);
    }
    if i >= 3 {
        crate::virtio::le_bytes::lemma_le_bytes_len(value / 256 / 256 / 256, (count - 3) as nat);
        assert(crate::virtio::le_bytes::le_bytes(value / 256 / 256, (count - 2) as nat)[i - 2]
            == crate::virtio::le_bytes::le_bytes(
            value / 256 / 256 / 256,
            (count - 3) as nat,
        )[i - 3]);
    }
}

/// A queue is as large as it was asked to be.
pub proof fn lemma_size_that_was_asked_for(max_size: u16, args: QueueArgs, size: u16)
    requires
        call_ensures(QueueArgs::new, (max_size,), args),
        call_ensures(QueueArgs::max_size, (&args,), size),
    ensures
        size == max_size,
{
}

/// A buffer that is given back is noted with its length at the next position of the used ring, which
/// then moves on by one, and from the last to the first. That happens only if the queue has such a
/// buffer. Nothing else moves.
pub proof fn lemma_given_back_buffers_move_the_position(
    queue: LockedQueueView,
    mem: GuestMemoryMmap<()>,
    head: u16,
    len: u32,
)
    ensures
        ({
            let after = queue.used(mem, head, len);
            let noted = crate::virtio::guest_queue::can_add_used(queue.fields, mem, head);
            &&& same_rings(queue.fields, after.fields)
            &&& after.fields.next_avail == queue.fields.next_avail
            &&& after.record.taken == queue.record.taken
            &&& after.record.misses == queue.record.misses
            &&& after.record.parts == queue.record.parts
            &&& after.record.read == queue.record.read
            &&& after.record.written == queue.record.written
            &&& after.record.notifications == queue.record.notifications
            &&& head >= queue.fields.size ==> after == queue
            &&& noted ==> {
                &&& after.fields.next_used == queue.fields.next_used + 1
                    || queue.fields.next_used == 65535 && after.fields.next_used == 0
                &&& after.record.given_back.len() == queue.record.given_back.len() + 1
                &&& after.record.given_back.last().head == head
                &&& after.record.given_back.last().len == len
            }
            &&& !noted ==> after.record.given_back == queue.record.given_back
        }),
{
}

/// A queue that was not marked ready, or that has no available ring, gives out no buffer.
pub proof fn lemma_what_gives_out_no_buffer(
    mem: &GuestMemoryMmap<()>,
    chain: Option<DescriptorChain<&GuestMemoryMmap<()>>>,
)
    ensures
        forall|queue: &mut LockedQueue|
            (#[trigger] call_ensures(LockedQueue::take, (queue, mem), chain)) && (
            !(*queue)@.fields.ready || (*queue)@.fields.size == 0 || (*queue)@.fields.avail_ring
                == 0) ==> chain is None,
{
}

/// Bytes that lie in one region of a memory all lie in the memory, and so does an integer of two bytes.
pub proof fn lemma_bytes_of_a_region(mem: GuestMemoryMmap<()>, addr: u64, len: usize, byte: int)
    ensures
        crate::virtio::guest_memory::memory_holds(mem, addr, len) && addr <= byte < addr + len
            ==> crate::virtio::guest_memory::memory_has_byte(mem, byte),
        crate::virtio::guest_memory::memory_has_u16(mem, addr) && addr <= byte < addr + 2
            ==> crate::virtio::guest_memory::memory_has_byte(mem, byte),
        crate::virtio::guest_memory::memory_regions(mem).len() == 0
            ==> !crate::virtio::guest_memory::memory_has_byte(mem, byte),
{
    let regions = crate::virtio::guest_memory::memory_regions(mem);
    if crate::virtio::guest_memory::memory_holds(mem, addr, len) && addr <= byte < addr + len {
        let i = choose|i: int|
            0 <= i < regions.len() && crate::virtio::guest_memory::range_holds(
                #[trigger] regions[i],
                addr as int,
                len as int,
            );
        assert(crate::virtio::guest_memory::range_holds(regions[i], byte, 1));
    }
    if crate::virtio::guest_memory::memory_has_u16(mem, addr) && addr <= byte < addr + 2 {
        let i = choose|i: int|
            0 <= i < regions.len() && crate::virtio::guest_memory::range_holds(
                #[trigger] regions[i],
                addr as int,
                2,
            ) && (addr - regions[i].start) % 2 == 0;
        assert(crate::virtio::guest_memory::range_holds(regions[i], byte, 1));
    }
}

/// A queue can be looked at while it is processed.
pub proof fn lemma_queue_can_be_looked_at(locked: LockedQueue, queue: &Queue)
    requires
        call_ensures(LockedQueue::queue, (&locked,), queue),
    ensures
        crate::virtio::virtqueue::queue_fields(*queue) == locked@.fields,
{
}

/// Integers are appended with the least significant byte first, and read back from there.
pub(crate) proof fn lemma_integers_in_bytes(
    short: u16,
    long: u32,
    bytes: &[u8],
    offset: usize,
    of_short: u16,
    of_long: u32,
)
    ensures
        forall|bytes: &mut Vec<u8>|
            (#[trigger] call_ensures(crate::virtio::le_bytes::push_u16, (bytes, short), ())) ==> (
            *final(bytes))@ == (*bytes)@ + seq![(short % 256) as u8, (short / 256) as u8],
        forall|bytes: &mut Vec<u8>|
            (#[trigger] call_ensures(crate::virtio::le_bytes::push_u32, (bytes, long), ())) ==> (
            *final(bytes))@ == (*bytes)@ + seq![
                (long % 256) as u8,
                (long / 256 % 256) as u8,
                (long / 65536 % 256) as u8,
                (long / 16777216) as u8,
            ],
        call_ensures(crate::virtio::le_bytes::read_u16, (bytes, offset), of_short) && offset + 2
            <= bytes@.len() ==> of_short == bytes@[offset as int] + 256 * bytes@[offset + 1],
        call_ensures(crate::virtio::le_bytes::read_u32, (bytes, offset), of_long) && offset + 4
            <= bytes@.len() ==> of_long == bytes@[offset as int] + 256 * bytes@[offset + 1] + 65536
            * bytes@[offset + 2] + 16777216 * bytes@[offset + 3],
{
    reveal_with_fuel(crate::virtio::le_bytes::le_bytes, 5);
    assert(crate::virtio::le_bytes::le_bytes(short as nat, 2) =~= seq![
        (short % 256) as u8,
        (short / 256) as u8,
    ]);
    assert(crate::virtio::le_bytes::le_bytes(long as nat, 4) =~= seq![
        (long % 256) as u8,
        (long / 256 % 256) as u8,
        (long / 65536 % 256) as u8,
        (long / 16777216) as u8,
    ]);
    if offset + 2 <= bytes@.len() {
        crate::virtio::le_bytes::lemma_le_value_2(bytes@.subrange(offset as int, offset + 2));
    }
    if offset + 4 <= bytes@.len() {
        crate::virtio::le_bytes::lemma_le_value_4(bytes@.subrange(offset as int, offset + 4));
    }
}

/// What is read or written of the rings is in the memory: the index and the next entry of the available
/// ring when a buffer is taken, those of the used ring when one is given back, and where notifications
/// are asked for.
pub proof fn lemma_rings_are_in_the_memory(
    fields: QueueFields,
    mem: GuestMemoryMmap<()>,
    head: u16,
    byte: int,
)
    ensures
        crate::virtio::guest_queue::can_take_buffer(fields, mem) && (fields.avail_ring + 2 <= byte
            < fields.avail_ring + 4 || crate::virtio::guest_queue::available_entry_address(fields)
            <= byte < crate::virtio::guest_queue::available_entry_address(fields) + 2)
            ==> crate::virtio::guest_memory::memory_has_byte(mem, byte),
        crate::virtio::guest_queue::can_add_used(fields, mem, head) && (fields.used_ring + 2 <= byte
            < fields.used_ring + 4 || crate::virtio::guest_queue::used_entry_address(fields) <= byte
            < crate::virtio::guest_queue::used_entry_address(fields) + 8)
            ==> crate::virtio::guest_memory::memory_has_byte(mem, byte),
        crate::virtio::guest_queue::has_used_idx(fields, mem) && fields.used_ring + 2 <= byte
            < fields.used_ring + 4 ==> crate::virtio::guest_memory::memory_has_byte(mem, byte),
        crate::virtio::guest_queue::can_enable_notification(fields, mem) && (fields.avail_ring + 2
            <= byte < fields.avail_ring + 4 || !fields.event_idx_enabled && fields.used_ring <= byte
            < fields.used_ring + 2 || fields.event_idx_enabled && fields.used_ring + 4 + 8
            * fields.size <= byte < fields.used_ring + 6 + 8 * fields.size)
            ==> crate::virtio::guest_memory::memory_has_byte(mem, byte),
{
    if crate::virtio::guest_queue::can_take_buffer(fields, mem)
        || crate::virtio::guest_queue::can_enable_notification(fields, mem) {
        lemma_bytes_of_a_region(mem, (fields.avail_ring + 2) as u64, 0, byte);
    }
    if crate::virtio::guest_queue::can_take_buffer(fields, mem) {
        lemma_bytes_of_a_region(
            mem,
            crate::virtio::guest_queue::available_entry_address(fields) as u64,
            0,
            byte,
        );
    }
    if crate::virtio::guest_queue::has_used_idx(fields, mem) {
        lemma_bytes_of_a_region(mem, (fields.used_ring + 2) as u64, 0, byte);
    }
    if crate::virtio::guest_queue::can_enable_notification(fields, mem) {
        lemma_bytes_of_a_region(
            mem,
            crate::virtio::guest_queue::notification_address(fields) as u64,
            0,
            byte,
        );
    }
}

/// A buffer that was opened is the one that was taken.
pub proof fn lemma_opened_buffer_was_taken(
    chain: DescriptorChain<&GuestMemoryMmap<()>>,
    mem: &GuestMemoryMmap<()>,
    writable: WritableBuffer<'_>,
    readable: ReadableBuffer<'_>,
)
    requires
        call_ensures(
            WritableBuffer::open,
            (chain, mem),
            Ok::<WritableBuffer<'_>, virtio_queue::Error>(writable),
        ),
        call_ensures(
            ReadableBuffer::open,
            (&chain, mem),
            Ok::<ReadableBuffer<'_>, virtio_queue::Error>(readable),
        ),
    ensures
        writable.head() == crate::virtio::guest_queue::chain_head(chain),
        readable.head() == crate::virtio::guest_queue::chain_head(chain),
{
}

/// Bytes that a region of a memory has from its start to its end are held by the memory, and an integer
/// of two bytes is if it is at an even distance from the start.
pub proof fn lemma_region_holds_its_bytes(mem: GuestMemoryMmap<()>, i: int, addr: u64, len: usize)
    requires
        0 <= i < crate::virtio::guest_memory::memory_regions(mem).len(),
    ensures
        ({
            let region = crate::virtio::guest_memory::memory_regions(mem)[i];
            let end = region.start + region.len;
            &&& region.start <= addr && addr < end && addr + len <= end
                ==> crate::virtio::guest_memory::memory_holds(mem, addr, len)
            &&& region.start <= addr && addr + 2 <= end && (addr - region.start) % 2 == 0
                ==> crate::virtio::guest_memory::memory_has_u16(mem, addr)
            &&& region.start <= addr < end ==> crate::virtio::guest_memory::memory_has_byte(
                mem,
                addr as int,
            )
            &&& region.start <= addr && addr + len <= end
                ==> crate::virtio::guest_memory::memory_has_range(mem, addr, len as nat)
        }),
{
    let regions = crate::virtio::guest_memory::memory_regions(mem);
    let end = regions[i].start + regions[i].len;
    if regions[i].start <= addr && addr < end && addr + len <= end {
        assert(crate::virtio::guest_memory::range_holds(regions[i], addr as int, len as int));
    }
    if regions[i].start <= addr && addr + 2 <= end {
        assert(crate::virtio::guest_memory::range_holds(regions[i], addr as int, 2));
    }
    if regions[i].start <= addr < end {
        assert(crate::virtio::guest_memory::range_holds(regions[i], addr as int, 1));
    }
    if regions[i].start <= addr && addr + len <= end {
        assert forall|byte: int| addr <= byte < addr + len implies
            #[trigger] crate::virtio::guest_memory::memory_has_byte(mem, byte) by {
            assert(crate::virtio::guest_memory::range_holds(regions[i], byte, 1));
        }
    }
}

/// A queue whose rings lie in one region of the memory, and that is ready, can be used: its next buffer
/// can be taken, any buffer that it has can be given back, and notifications can be asked for.
pub proof fn lemma_queue_in_one_region(
    fields: QueueFields,
    mem: GuestMemoryMmap<()>,
    i: int,
    head: u16,
)
    requires
        0 <= i < crate::virtio::guest_memory::memory_regions(mem).len(),
        fields.ready,
        head < fields.size,
        fields.avail_ring > 0,
        ({
            let region = crate::virtio::guest_memory::memory_regions(mem)[i];
            let end = region.start + region.len;
            &&& end <= u64::MAX
            &&& region.start <= fields.avail_ring
            &&& fields.avail_ring + 4 + 2 * fields.size <= end
            &&& (fields.avail_ring - region.start) % 2 == 0
            &&& region.start <= fields.used_ring
            &&& fields.used_ring + 6 + 8 * fields.size <= end
            &&& (fields.used_ring - region.start) % 2 == 0
        }),
    ensures
        crate::virtio::guest_queue::can_take_buffer(fields, mem),
        crate::virtio::guest_queue::can_add_used(fields, mem, head),
        crate::virtio::guest_queue::has_used_idx(fields, mem),
        crate::virtio::guest_queue::can_enable_notification(fields, mem),
{
    let taken = fields.next_avail as int % fields.size as int;
    let used = fields.next_used as int % fields.size as int;
    assert(0 <= taken < fields.size && 0 <= used < fields.size);
    lemma_region_holds_its_bytes(mem, i, (fields.avail_ring + 2) as u64, 2);
    lemma_region_holds_its_bytes(mem, i, (fields.used_ring + 2) as u64, 2);
    lemma_region_holds_its_bytes(mem, i, (fields.avail_ring + 4 + 2 * taken) as u64, 2);
    lemma_region_holds_its_bytes(mem, i, (fields.used_ring + 4 + 8 * used) as u64, 8);
    lemma_region_holds_its_bytes(mem, i, (fields.used_ring + 4 + 8 * fields.size) as u64, 2);
    lemma_region_holds_its_bytes(mem, i, fields.used_ring, 2);
}

} // verus!
