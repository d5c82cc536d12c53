//! A queue while it is being processed, with a record of what goes through it.
//!
//! What lies in the memory of the guest is the guest's, who can change it at any time. So which
//! buffers there are and what they hold cannot be said beforehand, but the record holds what was
//! found: the buffers that were taken, their parts, and the bytes that were read. What the device
//! hands to the driver rests on the device alone: the record holds which bytes were written to which
//! buffer, and which buffers were given back with which length.

use crate::virtio::guest_queue::{
    chain_head_index, chain_readable, chain_reader, chain_writable, chain_writer,
    queue_disable_notification, queue_enable_notification, queue_pop_descriptor_chain,
    reader_read_obj, BufferPart, TakenBuffer,
};
use crate::virtio::virtqueue::{
    queue_event_idx_enabled, queue_go_to_previous_position, QueueFields,
};
use std::io::Write;
use virtio_queue::DescriptorChain;
use virtio_queue::Queue;
use virtio_queue::QueueT;
use virtio_queue::Reader;
use virtio_queue::Writer;
use vm_memory::GuestMemoryMmap;
use vstd::prelude::*;

verus! {

/// A buffer that was given back to the driver, as it is noted in the used ring.
pub struct UsedEntry {
    /// The index of the first descriptor of the buffer.
    pub head: u16,
    /// The number of bytes that were used.
    pub len: u32,
}

/// Bytes that were written to a buffer.
pub struct BufferWrite {
    /// The index of the first descriptor of the buffer.
    pub head: u16,
    /// The number of bytes that the buffer had room for.
    pub room: usize,
    /// The bytes.
    pub bytes: Seq<u8>,
}

/// A message that was read from a buffer, or was to be read.
pub struct BufferRead {
    /// The index of the first descriptor of the buffer.
    pub head: u16,
    /// The bytes, or `None` if the buffer had too few.
    pub bytes: Option<Seq<u8>>,
}

/// The parts of a buffer that were found.
pub struct BufferParts {
    /// The index of the first descriptor of the buffer.
    pub head: u16,
    /// The parts that the device may write to, or those that it may read from.
    pub parts: Seq<BufferPart>,
}

/// What the driver was asked for.
pub enum NotificationRequest {
    /// Notifications. There were buffers already, or not.
    Enable { pending: bool },
    /// No notifications.
    Disable,
}

/// What went through a queue since it was locked.
pub struct QueueRecord {
    /// The buffers that were taken and not put back, in order, by their first descriptors.
    pub taken: Seq<u16>,
    /// How often there was no buffer to take.
    pub misses: nat,
    /// The parts of buffers that were found, in order.
    pub parts: Seq<BufferParts>,
    /// What was read from buffers, in order.
    pub read: Seq<BufferRead>,
    /// What was written to buffers, in order.
    pub written: Seq<BufferWrite>,
    /// The buffers that were given back, in order.
    pub given_back: Seq<UsedEntry>,
    /// What the driver was asked for, in order.
    pub notifications: Seq<NotificationRequest>,
}

impl QueueRecord {
    /// Nothing went through the queue yet.
    pub open spec fn nothing() -> QueueRecord {
        QueueRecord {
            taken: seq![],
            misses: 0,
            parts: seq![],
            read: seq![],
            written: seq![],
            given_back: seq![],
            notifications: seq![],
        }
    }
}

/// The state of a queue that is being processed.
pub struct LockedQueueView {
    /// What the queue holds.
    pub fields: QueueFields,
    /// What went through the queue.
    pub record: QueueRecord,
}

impl LockedQueueView {
    /// The state after the buffer that starts with the given descriptor was taken.
    pub open spec fn took(self, head: u16) -> LockedQueueView {
        LockedQueueView {
            fields: crate::virtio::guest_queue::with_taken(self.fields, 1),
            record: QueueRecord { taken: self.record.taken.push(head), ..self.record },
        }
    }

    /// The state after no buffer was found to be taken.
    pub open spec fn missed(self) -> LockedQueueView {
        LockedQueueView {
            record: QueueRecord { misses: self.record.misses + 1, ..self.record },
            ..self
        }
    }

    /// The state after the buffer that was taken last was put back.
    pub open spec fn rewound(self) -> LockedQueueView {
        LockedQueueView {
            fields: crate::virtio::guest_queue::with_rewound(self.fields),
            record: QueueRecord {
                taken: if self.record.taken.len() > 0 {
                    self.record.taken.drop_last()
                } else {
                    self.record.taken
                },
                ..self.record
            },
        }
    }

    /// The state after the parts of a buffer were found.
    pub open spec fn found(self, head: u16, parts: Seq<BufferPart>) -> LockedQueueView {
        LockedQueueView {
            record: QueueRecord {
                parts: self.record.parts.push(BufferParts { head, parts }),
                ..self.record
            },
            ..self
        }
    }

    /// The state after a message was read from a buffer, or could not be.
    pub open spec fn read(self, head: u16, bytes: Option<Seq<u8>>) -> LockedQueueView {
        LockedQueueView {
            record: QueueRecord {
                read: self.record.read.push(BufferRead { head, bytes }),
                ..self.record
            },
            ..self
        }
    }

    /// The state after bytes were written to a buffer.
    pub open spec fn wrote(self, head: u16, room: usize, bytes: Seq<u8>) -> LockedQueueView {
        LockedQueueView {
            record: QueueRecord {
                written: self.record.written.push(BufferWrite { head, room, bytes }),
                ..self.record
            },
            ..self
        }
    }

    /// The state after a buffer was to be given back with the given length. If that is not possible,
    /// the driver is not given the buffer.
    pub open spec fn used(self, mem: GuestMemoryMmap<()>, head: u16, len: u32) -> LockedQueueView {
        LockedQueueView {
            fields: crate::virtio::guest_queue::after_add_used(self.fields, mem, head),
            record: QueueRecord {
                given_back: if crate::virtio::guest_queue::can_add_used(self.fields, mem, head) {
                    self.record.given_back.push(UsedEntry { head, len })
                } else {
                    self.record.given_back
                },
                ..self.record
            },
        }
    }

    /// The state after the driver was asked for notifications, or for none.
    pub open spec fn asked(self, request: NotificationRequest) -> LockedQueueView {
        LockedQueueView {
            record: QueueRecord {
                notifications: self.record.notifications.push(request),
                ..self.record
            },
            ..self
        }
    }
}

/// A buffer that was taken and put back leaves the queue, and what is known of it, as it was.
pub proof fn lemma_rewind_undoes_take(queue: LockedQueueView, head: u16)
    ensures
        queue.took(head).rewound() == queue,
{
    crate::virtio::guest_queue::lemma_rewind_undoes_take(queue.fields);
    assert(queue.record.taken.push(head).drop_last() =~= queue.record.taken);
}

/// A buffer that was opened for the device to write to it.
pub struct WritableBuffer<'a> {
    head: u16,
    writer: Writer<'a, ()>,
}

impl<'a> WritableBuffer<'a> {
    /// The index of the first descriptor of the buffer.
    pub closed spec fn head(&self) -> u16 {
        self.head
    }

    /// The number of bytes that the buffer has room for.
    pub closed spec fn room(&self) -> usize {
        crate::virtio::guest_queue::writer_room(self.writer)
    }

    /// Opens a buffer that was taken. Whether that fails, and how much room there is, rests on the
    /// memory of the guest.
    pub fn open(
        chain: DescriptorChain<&'a GuestMemoryMmap<()>>,
        mem: &'a GuestMemoryMmap<()>,
    ) -> (result: Result<WritableBuffer<'a>, virtio_queue::Error>)
        ensures
            result matches Ok(buffer) ==> buffer.head() == crate::virtio::guest_queue::chain_head(
                chain,
            ),
    {
        let head: u16 = chain_head_index(&chain);
        match chain_writer(chain, mem) {
            Ok(writer) => Ok(WritableBuffer { head, writer }),
            Err(e) => Err(e),
        }
    }
}

/// A buffer that was opened for the device to read from it.
pub struct ReadableBuffer<'a> {
    head: u16,
    reader: Reader<'a, ()>,
}

impl<'a> ReadableBuffer<'a> {
    /// The index of the first descriptor of the buffer.
    pub closed spec fn head(&self) -> u16 {
        self.head
    }

    /// The number of bytes that can be read from the buffer.
    pub closed spec fn len(&self) -> usize {
        crate::virtio::guest_queue::reader_len(self.reader)
    }

    /// Opens a buffer that was taken. Whether that fails, and how many bytes there are, rests on the
    /// memory of the guest.
    pub fn open(
        chain: &DescriptorChain<&'a GuestMemoryMmap<()>>,
        mem: &'a GuestMemoryMmap<()>,
    ) -> (result: Result<ReadableBuffer<'a>, virtio_queue::Error>)
        ensures
            result matches Ok(buffer) ==> buffer.head() == crate::virtio::guest_queue::chain_head(
                *chain,
            ),
    {
        let head: u16 = chain_head_index(chain);
        match chain_reader(chain, mem) {
            Ok(reader) => Ok(ReadableBuffer { head, reader }),
            Err(e) => Err(e),
        }
    }
}

/// A queue that is being processed.
pub struct LockedQueue {
    queue: Queue,
    record: Ghost<QueueRecord>,
}

impl View for LockedQueue {
    type V = LockedQueueView;

    closed spec fn view(&self) -> LockedQueueView {
        LockedQueueView {
            fields: crate::virtio::virtqueue::queue_fields(self.queue),
            record: self.record@,
        }
    }
}

impl LockedQueue {
    /// A queue through which nothing went yet.
    pub fn new(queue: Queue) -> (locked: LockedQueue)
        ensures
            locked@ == (LockedQueueView {
                fields: crate::virtio::virtqueue::queue_fields(queue),
                record: QueueRecord::nothing(),
            }),
    {
        LockedQueue { queue, record: Ghost(QueueRecord::nothing()) }
    }

    /// The queue.
    pub fn queue(&self) -> (queue: &Queue)
        ensures
            crate::virtio::virtqueue::queue_fields(*queue) == self@.fields,
    {
        &self.queue
    }

    /// The queue, which is not processed any more.
    pub fn into_queue(self) -> (queue: Queue)
        ensures
            crate::virtio::virtqueue::queue_fields(queue) == self@.fields,
    {
        self.queue
    }

    /// Whether event indices are in use.
    pub fn event_idx_enabled(&self) -> (enabled: bool)
        ensures
            enabled == self@.fields.event_idx_enabled,
    {
        queue_event_idx_enabled(&self.queue)
    }

    /// Takes the next buffer, if there is one. Which buffer it is, and whether there is one, rests on
    /// the memory of the guest.
    pub fn take<'a>(&mut self, mem: &'a GuestMemoryMmap<()>) -> (chain: Option<
        DescriptorChain<&'a GuestMemoryMmap<()>>,
    >)
        ensures
            chain is Some ==> crate::virtio::guest_queue::can_take_buffer(
                old(self)@.fields,
                *mem,
            ),
            final(self)@ == match chain {
                Some(chain) => old(self)@.took(crate::virtio::guest_queue::chain_head(chain)),
                None => old(self)@.missed(),
            },
    {
        match queue_pop_descriptor_chain(&mut self.queue, mem) {
            Some(chain) => {
                self.record = Ghost(
                    old(self)@.took(crate::virtio::guest_queue::chain_head(chain)).record,
                );
                Some(chain)
            },
            None => {
                self.record = Ghost(old(self)@.missed().record);
                None
            },
        }
    }

    /// Takes the next buffer, if there is one, with the parts of it that the device may write to.
    pub fn take_to_write<'a>(&mut self, mem: &'a GuestMemoryMmap<()>) -> (taken: Option<
        TakenBuffer<'a>,
    >)
        ensures
            taken is Some ==> crate::virtio::guest_queue::can_take_buffer(
                old(self)@.fields,
                *mem,
            ),
            final(self)@ == match taken {
                Some(taken) => old(self)@.took(
                    crate::virtio::guest_queue::chain_head(taken.chain),
                ).found(crate::virtio::guest_queue::chain_head(taken.chain), taken.parts@),
                None => old(self)@.missed(),
            },
            taken matches Some(taken) ==> forall|i: int|
                0 <= i < taken.parts@.len() ==> (#[trigger] taken.parts@[i]).write_only,
    {
        match self.take(mem) {
            None => None,
            Some(chain) => {
                let parts = chain_writable(&chain);
                self.record = Ghost(
                    self@.found(crate::virtio::guest_queue::chain_head(chain), parts@).record,
                );
                Some(TakenBuffer { chain, parts })
            },
        }
    }

    /// Takes the next buffer, if there is one, with the parts of it that the device may read from.
    pub fn take_to_read<'a>(&mut self, mem: &'a GuestMemoryMmap<()>) -> (taken: Option<
        TakenBuffer<'a>,
    >)
        ensures
            taken is Some ==> crate::virtio::guest_queue::can_take_buffer(
                old(self)@.fields,
                *mem,
            ),
            final(self)@ == match taken {
                Some(taken) => old(self)@.took(
                    crate::virtio::guest_queue::chain_head(taken.chain),
                ).found(crate::virtio::guest_queue::chain_head(taken.chain), taken.parts@),
                None => old(self)@.missed(),
            },
            taken matches Some(taken) ==> forall|i: int|
                0 <= i < taken.parts@.len() ==> !(#[trigger] taken.parts@[i]).write_only,
    {
        match self.take(mem) {
            None => None,
            Some(chain) => {
                let parts = chain_readable(&chain);
                self.record = Ghost(
                    self@.found(crate::virtio::guest_queue::chain_head(chain), parts@).record,
                );
                Some(TakenBuffer { chain, parts })
            },
        }
    }

    /// Puts the buffer that was taken last back into the queue.
    pub fn put_back(&mut self)
        ensures
            final(self)@ == old(self)@.rewound(),
    {
        queue_go_to_previous_position(&mut self.queue);
        self.record = Ghost(old(self)@.rewound().record);
    }

    /// Reads a message of eight bytes from a buffer. That fails exactly if the buffer has fewer. The
    /// bytes rest on the memory of the guest.
    pub fn read<'a>(&mut self, buffer: &mut ReadableBuffer<'a>) -> (result: Result<[u8; 8], ()>)
        ensures
            result is Ok <==> 8 <= old(buffer).len(),
            final(self)@ == old(self)@.read(
                old(buffer).head(),
                match result {
                    Ok(bytes) => Some(bytes@),
                    Err(_) => None,
                },
            ),
    {
        match reader_read_obj(&mut buffer.reader) {
            Ok(bytes) => {
                self.record = Ghost(old(self)@.read(old(buffer).head(), Some(bytes@)).record);
                Ok(bytes)
            },
            Err(()) => {
                self.record = Ghost(old(self)@.read(old(buffer).head(), None).record);
                Err(())
            },
        }
    }

    /// Asks the driver for notifications, and tells whether there are buffers already, which rests on
    /// the memory of the guest. That fails exactly if the rings are not in the memory where they are
    /// written to or read from.
    pub fn enable_notification(&mut self, mem: &GuestMemoryMmap<()>) -> (result: Result<
        bool,
        virtio_queue::Error,
    >)
        ensures
            result is Ok <==> crate::virtio::guest_queue::can_enable_notification(
                old(self)@.fields,
                *mem,
            ),
            final(self)@ == match result {
                Ok(pending) => old(self)@.asked(NotificationRequest::Enable { pending }),
                Err(_) => old(self)@,
            },
    {
        match queue_enable_notification(&mut self.queue, mem) {
            Ok(pending) => {
                self.record = Ghost(
                    old(self)@.asked(NotificationRequest::Enable { pending }).record,
                );
                Ok(pending)
            },
            Err(e) => Err(e),
        }
    }

    /// Asks the driver for no notifications. With event indices there is nothing to ask for.
    pub fn disable_notification(&mut self, mem: &GuestMemoryMmap<()>) -> (result: Result<
        (),
        virtio_queue::Error,
    >)
        ensures
            result is Ok <==> old(self)@.fields.event_idx_enabled
                || crate::virtio::guest_memory::memory_has_u16(*mem, old(self)@.fields.used_ring),
            final(self)@ == match result {
                Ok(()) => old(self)@.asked(NotificationRequest::Disable),
                Err(_) => old(self)@,
            },
    {
        match queue_disable_notification(&mut self.queue, mem) {
            Ok(()) => {
                self.record = Ghost(old(self)@.asked(NotificationRequest::Disable).record);
                Ok(())
            },
            Err(e) => Err(e),
        }
    }

    /// [`Writer`]'s [`Write::write`]: writes as many of the bytes as the buffer has room for, from the
    /// first one on. It cannot fail, because the length of a whole buffer fits in a `usize`. The
    /// record of the queue holds which bytes were handed over for which buffer.
    #[verifier::external_body]
    pub(crate) fn write<'a>(&mut self, buffer: &mut WritableBuffer<'a>, bytes: &[u8]) -> (written:
        Result<usize, ()>)
        ensures
            written == Ok::<usize, ()>(
                if bytes@.len() <= old(buffer).room() {
                    bytes@.len() as usize
                } else {
                    old(buffer).room()
                },
            ),
            final(self)@ == old(self)@.wrote(
                old(buffer).head(),
                old(buffer).room(),
                bytes@.take(written->Ok_0 as int),
            ),
            final(buffer).head() == old(buffer).head(),
            final(buffer).room() == old(buffer).room() - written->Ok_0,
    {
        buffer.writer.write(bytes).map_err(|_| ())
    }

    /// [`QueueT::add_used`] on [`Queue`]: gives a buffer back, with the number of bytes that were used.
    /// It fails if the queue has no descriptor with that index, or if the next entry or the index of
    /// the used ring is not in the memory. The position in the used ring moves on by one entry as
    /// soon as the entry was written, even if the index cannot be written. The record of the queue
    /// holds which buffers the driver was given, and with which length.
    #[verifier::external_body]
    pub(crate) fn add_used(&mut self, mem: &GuestMemoryMmap<()>, head: u16, len: u32) -> (result:
        Result<(), virtio_queue::Error>)
        ensures
            result is Ok <==> crate::virtio::guest_queue::can_add_used(
                old(self)@.fields,
                *mem,
                head,
            ),
            final(self)@ == old(self)@.used(*mem, head, len),
    {
        self.queue.add_used(mem, head, len)
    }
}

} // verus!
