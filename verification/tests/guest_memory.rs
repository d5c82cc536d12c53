//! Workers on queues that lie in the memory of a guest.

use std::collections::BTreeMap;
use virtio_devices::console::control::VirtioConsoleControl;
use virtio_devices::console::port::{Port, PortDescription};
use virtio_devices::console::process_rx::{PartRead, PortRx, PortRxAction, PortRxEvent};
use virtio_devices::console::process_tx::{PartWritten, PortTx, PortTxAction, PortTxEvent};
use virtio_devices::console::worker::{
    ControlRx, ControlTx, MainWorker, RxAction, TxAction, TxFault,
};
use virtio_devices::gpu::device::GpuError;
use virtio_devices::gpu::protocol::{CtrlHdr, GpuCall, GpuCommand, GpuResponse, MemoryPiece};
use virtio_devices::gpu::worker::{
    ChainAction, ChainEvent, GpuChain, PassAction, PassEvent, QueueAction, QueueHandler, QueuePass,
};
use virtio_devices::virtio::guest_queue::BufferPart;
use virtio_devices::virtio::locked_queue::{LockedQueue, ReadableBuffer, WritableBuffer};
use virtio_queue::{Queue, QueueT};
use vm_memory::{Bytes, GuestAddress, GuestMemoryMmap};

const DESC_TABLE: u64 = 0x1000;
const AVAIL_RING: u64 = 0x2000;
const USED_RING: u64 = 0x3000;
const DATA: u64 = 0x4000;

/// The flag of a buffer that the device may write to.
const WRITE: u16 = 2;

/// A guest with a queue in its memory.
struct Guest {
    mem: GuestMemoryMmap<()>,
    queue: LockedQueue,
}

impl Guest {
    fn new() -> Guest {
        Guest::with_event_idx(false)
    }

    fn with_event_idx(event_idx: bool) -> Guest {
        let mut queue = Queue::new(16).unwrap();
        queue.set_desc_table_address(Some(DESC_TABLE as u32), Some(0));
        queue.set_avail_ring_address(Some(AVAIL_RING as u32), Some(0));
        queue.set_used_ring_address(Some(USED_RING as u32), Some(0));
        queue.set_ready(true);
        queue.set_event_idx(event_idx);
        Guest {
            mem: GuestMemoryMmap::from_ranges(&[(GuestAddress(0), 0x1_0000)]).unwrap(),
            queue: LockedQueue::new(queue),
        }
    }

    fn next_avail(&self) -> u16 {
        self.queue.queue().next_avail()
    }

    fn next_used(&self) -> u16 {
        self.queue.queue().next_used()
    }

    /// Makes a buffer available that consists of one descriptor.
    fn offer(&self, index: u16, addr: u64, len: u32, flags: u16) {
        let desc = DESC_TABLE + 16 * index as u64;
        self.mem.write_obj(addr, GuestAddress(desc)).unwrap();
        self.mem.write_obj(len, GuestAddress(desc + 8)).unwrap();
        self.mem.write_obj(flags, GuestAddress(desc + 12)).unwrap();
        self.mem.write_obj(0u16, GuestAddress(desc + 14)).unwrap();
        let idx: u16 = self.mem.read_obj(GuestAddress(AVAIL_RING + 2)).unwrap();
        let slot = AVAIL_RING + 4 + 2 * (idx % 16) as u64;
        self.mem.write_obj(index, GuestAddress(slot)).unwrap();
        self.mem.write_obj(idx + 1, GuestAddress(AVAIL_RING + 2)).unwrap();
    }

    /// Makes a buffer available that holds the given bytes.
    fn send(&self, index: u16, bytes: &[u8]) {
        let addr = DATA + 0x100 * index as u64;
        self.mem.write_slice(bytes, GuestAddress(addr)).unwrap();
        self.offer(index, addr, bytes.len() as u32, 0);
    }

    /// Makes an empty buffer available.
    fn receive(&self, index: u16, len: u32) {
        self.offer(index, DATA + 0x100 * index as u64, len, WRITE);
    }

    fn bytes(&self, index: u16, len: usize) -> Vec<u8> {
        let mut bytes = vec![0; len];
        let addr = GuestAddress(DATA + 0x100 * index as u64);
        self.mem.read_slice(&mut bytes, addr).unwrap();
        bytes
    }

    /// The buffers that were given back, with the number of their bytes.
    fn used(&self) -> Vec<(u32, u32)> {
        let idx: u16 = self.mem.read_obj(GuestAddress(USED_RING + 2)).unwrap();
        (0..idx as u64)
            .map(|i| {
                let element = USED_RING + 4 + 8 * i;
                (
                    self.mem.read_obj(GuestAddress(element)).unwrap(),
                    self.mem.read_obj(GuestAddress(element + 4)).unwrap(),
                )
            })
            .collect()
    }
}

fn worker() -> MainWorker<u8, u8, usize> {
    let queues: BTreeMap<usize, usize> = (0..6).map(|i| (i, i)).collect();
    let ports = vec![
        Port::new(0, PortDescription::Console { input: Some(1), output: Some(2) }),
        Port::new(1, PortDescription::InputPipe { name: "log".to_string(), input: 3 }),
    ];
    MainWorker::new(queues, ports)
}

fn message(id: u32, event: u16, value: u16) -> Vec<u8> {
    VirtioConsoleControl { id, event, value }.to_bytes()
}

#[test]
fn messages_are_written_to_the_guest() {
    let mut guest = Guest::new();
    guest.receive(5, 16);
    guest.receive(7, 8);
    guest.receive(2, 16);
    let mut worker = worker();
    worker.control_mut().port_open(1, true);
    worker.control_mut().port_add(0x0102_0304);
    let mut rx = ControlRx::new();
    let action = worker.send_messages(&mut rx, &mut guest.queue, &guest.mem).unwrap();
    assert!(matches!(action, RxAction::Finish { signal: true }));
    assert_eq!(guest.bytes(5, 8), message(1, 6, 1));
    assert_eq!(guest.bytes(7, 8), message(0x0102_0304, 1, 0));
    assert_eq!(guest.used(), vec![(5, 8), (7, 8)]);
    // The buffer for which there is no message stays in the queue.
    assert_eq!(guest.next_avail(), 2);
    assert_eq!(guest.next_used(), 2);
    assert!(worker.control_mut().queue_pop().is_none());
}

#[test]
fn messages_wait_for_buffers() {
    let mut guest = Guest::new();
    let mut worker = worker();
    worker.control_mut().port_open(1, true);
    let mut rx = ControlRx::new();
    let action = worker.send_messages(&mut rx, &mut guest.queue, &guest.mem).unwrap();
    assert!(matches!(action, RxAction::Finish { signal: false }));
    assert_eq!(worker.control_mut().queue_pop().unwrap().into_bytes(), message(1, 6, 1));
    assert_eq!(guest.next_avail(), 0);
}

#[test]
fn messages_that_do_not_fit_are_lost() {
    let mut guest = Guest::new();
    guest.receive(0, 4);
    let mut worker = worker();
    worker.control_mut().port_open(1, true);
    let mut rx = ControlRx::new();
    let action = worker.send_messages(&mut rx, &mut guest.queue, &guest.mem).unwrap();
    assert!(matches!(action, RxAction::Finish { signal: false }));
    assert_eq!(guest.used(), vec![]);
    assert_eq!(guest.next_avail(), 1);
    assert!(worker.control_mut().queue_pop().is_none());
}

#[test]
fn messages_need_buffers_in_memory() {
    let mut guest = Guest::new();
    guest.offer(0, 0x100_0000, 8, WRITE);
    let mut worker = worker();
    worker.control_mut().port_open(1, true);
    let mut rx = ControlRx::new();
    assert!(worker.send_messages(&mut rx, &mut guest.queue, &guest.mem).is_err());
    assert!(worker.control_mut().queue_pop().is_none());
}

#[test]
fn messages_are_read_from_the_guest() {
    let mut guest = Guest::new();
    guest.send(3, &message(0, 0, 1));
    guest.send(4, &[1, 2, 3]);
    guest.send(5, &message(1, 3, 1));
    let mut worker = worker();
    let mut tx = ControlTx { raise_irq: false };

    let action = worker.receive_message(&mut tx, &mut guest.queue, &guest.mem).unwrap();
    assert_eq!(action, TxAction::Pop);
    assert_eq!(worker.control_mut().queue_pop().unwrap().into_bytes(), message(0, 1, 0));
    assert_eq!(worker.control_mut().queue_pop().unwrap().into_bytes(), message(1, 1, 0));
    // Descriptor 0 is given back for every message.
    assert_eq!(guest.used(), vec![(0, 8)]);

    let action = worker.receive_message(&mut tx, &mut guest.queue, &guest.mem).unwrap();
    assert_eq!(action, TxAction::Pop);
    assert!(worker.control_mut().queue_pop().is_none());
    assert_eq!(guest.used(), vec![(0, 8)]);

    let action = worker.receive_message(&mut tx, &mut guest.queue, &guest.mem).unwrap();
    assert_eq!(action, TxAction::Pop);
    assert_eq!(worker.control_mut().queue_pop().unwrap().into_bytes(), message(1, 6, 1));
    let mut name = message(1, 7, 1);
    name.extend_from_slice(b"log");
    assert_eq!(worker.control_mut().queue_pop().unwrap().into_bytes(), name);
    assert_eq!(guest.used(), vec![(0, 8), (0, 8)]);

    let action = worker.receive_message(&mut tx, &mut guest.queue, &guest.mem).unwrap();
    assert_eq!(action, TxAction::Finish { signal: true });
    assert_eq!(guest.next_avail(), 3);
}

#[test]
fn messages_that_cannot_be_received() {
    let mut guest = Guest::new();
    guest.send(0, &message(9, 3, 1));
    guest.offer(1, 0x100_0000, 8, 0);
    let mut worker = worker();
    let mut tx = ControlTx { raise_irq: false };
    assert!(matches!(
        worker.receive_message(&mut tx, &mut guest.queue, &guest.mem),
        Err(TxFault::UnknownPort(9))
    ));
    assert!(matches!(
        worker.receive_message(&mut tx, &mut guest.queue, &guest.mem),
        Err(TxFault::InvalidBuffer(_))
    ));
    assert!(worker.control_mut().queue_pop().is_none());
}

#[test]
fn input_goes_to_buffers() {
    let mut guest = Guest::new();
    guest.receive(6, 10);
    guest.receive(1, 10);
    let mut rx = PortRx::new();
    let (action, taken) = rx.take_buffer(&mut guest.queue, &guest.mem);
    assert_eq!(action, PortRxAction::ReadPart);
    let taken = taken.unwrap();
    assert_eq!(taken.chain.head_index(), 6);
    let part = BufferPart { addr: DATA + 0x600, len: 10, write_only: true };
    assert_eq!(taken.parts, vec![part]);
    rx.process_rx::<u8>(PortRxEvent::PartRead { part: PartRead::Read(3), eof: false });
    let action = rx.process_rx::<u8>(PortRxEvent::PartRead { part: PartRead::Read(0), eof: false });
    assert_eq!(action, PortRxAction::AddUsed { head: 6, len: 3 });
    assert_eq!(rx.return_buffer(action, &mut guest.queue, &guest.mem), PortRxAction::Pop);
    assert_eq!(guest.used(), vec![(6, 3)]);

    let (action, chain) = rx.take_buffer(&mut guest.queue, &guest.mem);
    assert_eq!(action, PortRxAction::ReadPart);
    assert!(chain.is_some());
    assert_eq!(guest.next_avail(), 2);
    let action = rx.process_rx::<u8>(PortRxEvent::PartRead { part: PartRead::NoPart, eof: false });
    assert_eq!(action, PortRxAction::Rewind);
    assert_eq!(
        rx.return_buffer(action, &mut guest.queue, &guest.mem),
        PortRxAction::Wait { signals: 1 }
    );
    assert_eq!(guest.next_avail(), 1);
    assert_eq!(guest.used(), vec![(6, 3)]);
}

#[test]
fn output_comes_from_buffers() {
    let mut guest = Guest::new();
    guest.send(2, b"hello");
    let mut tx = PortTx::new();
    let (action, taken) = tx.take_buffer(&mut guest.queue, &guest.mem);
    assert_eq!(action, PortTxAction::WritePart);
    let taken = taken.unwrap();
    assert_eq!(taken.chain.head_index(), 2);
    let part = BufferPart { addr: DATA + 0x200, len: 5, write_only: false };
    assert_eq!(taken.parts, vec![part]);
    tx.process_tx::<u8>(PortTxEvent::PartWritten(PartWritten::Written(5)));
    let action = tx.process_tx::<u8>(PortTxEvent::PartWritten(PartWritten::NoPart));
    assert_eq!(action, PortTxAction::AddUsed { head: 2, len: 5 });
    assert_eq!(tx.return_buffer(action, &mut guest.queue, &guest.mem), PortTxAction::Pop);
    assert_eq!(guest.used(), vec![(2, 5)]);
    let (action, chain) = tx.take_buffer(&mut guest.queue, &guest.mem);
    assert_eq!(action, PortTxAction::Wait { signal: true });
    assert!(chain.is_none());

    guest.send(3, b"again");
    let (action, _) = tx.take_buffer(&mut guest.queue, &guest.mem);
    assert_eq!(action, PortTxAction::WritePart);
    let action = tx.process_tx::<u8>(PortTxEvent::PartWritten(PartWritten::Written(0)));
    assert_eq!(action, PortTxAction::Rewind);
    assert_eq!(
        tx.return_buffer(action, &mut guest.queue, &guest.mem),
        PortTxAction::Wait { signal: false }
    );
    assert_eq!(guest.next_avail(), 1);
}

#[test]
fn ports_use_the_parts_they_may_use() {
    let mut guest = Guest::new();
    guest.receive(0, 10);
    guest.send(1, b"output");
    let (_, taken) = PortTx::new().take_buffer(&mut guest.queue, &guest.mem);
    assert!(taken.unwrap().parts.is_empty());
    let (_, taken) = PortRx::new().take_buffer(&mut guest.queue, &guest.mem);
    assert!(taken.unwrap().parts.is_empty());
}

#[test]
fn buffers_need_the_used_ring_in_memory() {
    // The memory ends before the first entry, within it, and behind the second.
    for (len, given_back) in [(4, 0), (8, 0), (12, 1), (20, 2)] {
        let mut guest = Guest::new();
        let size = USED_RING as usize + len;
        let mem = GuestMemoryMmap::from_ranges(&[(GuestAddress(0), size)]).unwrap();
        for _ in 0..2 {
            let mut rx = PortRx::new();
            let action = PortRxAction::AddUsed { head: 3, len: 7 };
            assert_eq!(rx.return_buffer(action, &mut guest.queue, &mem), PortRxAction::Pop);
        }
        assert_eq!(guest.next_used(), given_back);
        let mut guest = Guest::new();
        for _ in 0..2 {
            let mut tx = PortTx::new();
            let action = PortTxAction::AddUsed { head: 3, len: 7 };
            assert_eq!(tx.return_buffer(action, &mut guest.queue, &mem), PortTxAction::Pop);
        }
        assert_eq!(guest.next_used(), given_back);
        let mut guest = Guest::new();
        let mut chain = GpuChain::new(3);
        let action = chain.give_back(7, &mut guest.queue, &mem);
        if given_back > 0 {
            assert!(matches!(action, ChainAction::Finish(Ok(true))));
        } else {
            assert!(matches!(action, ChainAction::Finish(Err(GpuError::QueueAddUsed(_)))));
        }
    }
    // An entry may lie in two regions, but the index has to be aligned.
    let split = [(GuestAddress(0), USED_RING as usize + 8), (GuestAddress(USED_RING + 8), 0x100)];
    let mem = GuestMemoryMmap::from_ranges(&split).unwrap();
    let mut guest = Guest::new();
    assert!(matches!(
        GpuChain::new(3).give_back(7, &mut guest.queue, &mem),
        ChainAction::Finish(Ok(true))
    ));
    let odd = GuestMemoryMmap::from_ranges(&[(GuestAddress(1), 0x1_0000)]).unwrap();
    assert!(matches!(
        GpuChain::new(3).give_back(7, &mut guest.queue, &odd),
        ChainAction::Finish(Err(GpuError::QueueAddUsed(_)))
    ));
    // The entry was written, but not the index.
    assert_eq!(guest.next_used(), 2);
}

#[test]
fn messages_are_written_if_they_fit() {
    let mut guest = Guest::new();
    guest.receive(3, 8);
    guest.receive(4, 7);
    let mut worker = worker();
    for (head, next_used) in [(3, 1), (4, 1)] {
        let chain = guest.queue.take(&guest.mem).unwrap();
        let mut buffer = WritableBuffer::open(chain, &guest.mem).unwrap();
        let mut rx = ControlRx { raise_irq: false, writing: Some((head, 8)) };
        let bytes = message(1, 6, 1);
        let queue = &mut guest.queue;
        let action = worker.write_message(&mut rx, bytes, &mut buffer, queue, &guest.mem);
        assert!(matches!(action, RxAction::Pop));
        assert_eq!(rx.raise_irq, head == 3);
        assert!(rx.writing.is_none());
        assert_eq!(guest.next_used(), next_used);
    }
    assert_eq!(guest.bytes(3, 8), message(1, 6, 1));
    assert_eq!(guest.bytes(4, 8), [&message(1, 6, 1)[..7], &[0]].concat());
    assert_eq!(guest.used(), vec![(3, 8)]);
}

#[test]
fn messages_are_read_if_they_are_whole() {
    let mut guest = Guest::new();
    guest.send(3, &message(0, 0, 1));
    guest.send(4, &[0; 7]);
    guest.send(5, &message(2, 3, 1));
    let mut worker = worker();
    for (announced, used) in [(2, 1), (0, 1)] {
        let chain = guest.queue.take(&guest.mem).unwrap();
        let mut buffer = ReadableBuffer::open(&chain, &guest.mem).unwrap();
        let mut tx = ControlTx { raise_irq: false };
        let result = worker.read_message(&mut tx, &mut buffer, &mut guest.queue, &guest.mem);
        assert!(matches!(result, Ok(TxAction::Pop)));
        assert!(tx.raise_irq);
        for port in 0..announced {
            assert_eq!(worker.control_mut().queue_pop().unwrap().into_bytes(), message(port, 1, 0));
        }
        assert!(worker.control_mut().queue_pop().is_none());
        assert_eq!(guest.next_used(), used);
    }
    let chain = guest.queue.take(&guest.mem).unwrap();
    let mut buffer = ReadableBuffer::open(&chain, &guest.mem).unwrap();
    let mut tx = ControlTx { raise_irq: false };
    let result = worker.read_message(&mut tx, &mut buffer, &mut guest.queue, &guest.mem);
    assert!(matches!(result, Err(TxFault::UnknownPort(2))));
    assert!(!tx.raise_irq);
    assert_eq!(guest.next_used(), 1);
}

#[test]
fn buffers_need_the_available_ring_in_memory() {
    for len in [2, 4, 6, 0x100] {
        let mut guest = Guest::new();
        let size = AVAIL_RING as usize + len;
        guest.mem = GuestMemoryMmap::from_ranges(&[(GuestAddress(0), size)]).unwrap();
        if len >= 4 {
            guest.mem.write_obj(1u16, GuestAddress(AVAIL_RING + 2)).unwrap();
        }
        let (action, taken) = PortRx::new().take_buffer(&mut guest.queue, &guest.mem);
        assert_eq!(taken.is_some(), len >= 6);
        assert_eq!(action == PortRxAction::ReadPart, len >= 6);
        assert_eq!(guest.next_avail(), (len >= 6) as u16);
    }
}

#[test]
fn notifications_of_gpu_queues() {
    let guest = Guest::new();
    let mut handler = QueueHandler::new();
    assert!(matches!(handler.queue_locked::<u8>(&guest.queue), QueueAction::Process));
    let mut guest = Guest::with_event_idx(true);
    assert!(matches!(
        handler.queue_locked::<u8>(&guest.queue),
        QueueAction::DisableNotification
    ));
    assert!(matches!(
        handler.disable_notification::<u8>(&mut guest.queue, &guest.mem),
        Ok(QueueAction::Process)
    ));
    assert!(matches!(
        handler.enable_notification::<u8>(&mut guest.queue, &guest.mem),
        Ok(QueueAction::Finish { signal: false })
    ));
    guest.send(0, b"command");
    assert!(matches!(
        handler.enable_notification::<u8>(&mut guest.queue, &guest.mem),
        Ok(QueueAction::DisableNotification)
    ));
    let elsewhere = GuestMemoryMmap::from_ranges(&[(GuestAddress(0), 0x1000)]).unwrap();
    assert!(handler.enable_notification::<u8>(&mut guest.queue, &elsewhere).is_err());
}

#[test]
fn notifications_need_the_rings_in_memory() {
    let mut guest = Guest::new();
    let mut handler = QueueHandler::new();
    let flags = GuestAddress(USED_RING);
    assert!(matches!(
        handler.disable_notification::<u8>(&mut guest.queue, &guest.mem),
        Ok(QueueAction::Process)
    ));
    assert_eq!(guest.mem.read_obj::<u16>(flags).unwrap(), 1);
    assert!(matches!(
        handler.enable_notification::<u8>(&mut guest.queue, &guest.mem),
        Ok(QueueAction::Finish { signal: false })
    ));
    assert_eq!(guest.mem.read_obj::<u16>(flags).unwrap(), 0);

    // The used ring is missing, the available ring is missing, and nothing is aligned.
    let size = USED_RING as usize;
    let no_used = GuestMemoryMmap::from_ranges(&[(GuestAddress(0), size)]).unwrap();
    let no_avail = GuestMemoryMmap::from_ranges(&[(GuestAddress(USED_RING), 0x1000)]).unwrap();
    let odd = GuestMemoryMmap::from_ranges(&[(GuestAddress(1), 0x1_0000)]).unwrap();
    assert!(handler.disable_notification::<u8>(&mut guest.queue, &no_used).is_err());
    assert!(handler.enable_notification::<u8>(&mut guest.queue, &no_used).is_err());
    assert!(handler.disable_notification::<u8>(&mut guest.queue, &no_avail).is_ok());
    assert!(handler.enable_notification::<u8>(&mut guest.queue, &no_avail).is_err());
    assert!(handler.disable_notification::<u8>(&mut guest.queue, &odd).is_err());
    assert!(handler.enable_notification::<u8>(&mut guest.queue, &odd).is_err());

    // With event indices only the end of the used ring, behind its 16 entries, is written to.
    let mut guest = Guest::with_event_idx(true);
    assert!(handler.disable_notification::<u8>(&mut guest.queue, &no_used).is_ok());
    for (len, is_ok) in [(4 + 8 * 16, false), (4 + 8 * 16 + 2, true)] {
        let mem = GuestMemoryMmap::from_ranges(&[(GuestAddress(0), size + len)]).unwrap();
        assert_eq!(handler.enable_notification::<u8>(&mut guest.queue, &mem).is_ok(), is_ok);
    }
}

#[test]
fn commands_in_guest_memory() {
    let mut guest = Guest::new();
    guest.receive(4, 24);
    guest.offer(5, 0x100_0000, 8, 0);
    guest.offer(6, 0x100_0000, 8, WRITE);
    let mut pass = QueuePass::new();
    assert!(matches!(pass.process_queue::<u8>(PassEvent::Started), PassAction::Pop));
    let taken = pass.take_buffer::<u8>(&mut guest.queue, &guest.mem);
    let (action, opened) = pass.open_buffer(taken.ok().unwrap(), &guest.mem);
    assert!(matches!(action, PassAction::Execute { head: 4 }));
    let (_, writer) = opened.unwrap();

    let mut chain = GpuChain::new(4);
    let hdr = CtrlHdr { type_: 0, flags: 0, fence_id: 0, ctx_id: 0, ring_idx: 0 };
    let iovecs = vec![
        MemoryPiece { addr: 0x100, len: 0x10 },
        MemoryPiece { addr: 0xfff0, len: 0x10 },
    ];
    let cmd = GpuCommand::ResourceAttachBacking { resource_id: 1, iovecs };
    assert!(matches!(
        chain.decoded::<u8>(hdr, cmd, &guest.mem),
        ChainAction::Call(GpuCall::AttachBacking { resource_id: 1, .. })
    ));
    chain.process_queue_chain::<u8>(ChainEvent::Called(Ok(GpuResponse::OkNoData)));
    assert!(matches!(chain.measure::<u8>(&writer), ChainAction::Encode { .. }));
    assert!(matches!(
        chain.process_queue_chain::<u8>(ChainEvent::Encoded(Ok(24))),
        ChainAction::AddUsed { head: 4, len: 24 }
    ));
    assert!(matches!(
        chain.give_back(24, &mut guest.queue, &guest.mem),
        ChainAction::Finish(Ok(true))
    ));
    assert_eq!(guest.used(), vec![(4, 24)]);

    let taken = pass.take_buffer::<u8>(&mut guest.queue, &guest.mem);
    let (action, opened) = pass.open_buffer(taken.ok().unwrap(), &guest.mem);
    assert!(matches!(action, PassAction::Fail(GpuError::CreateReader(_))));
    assert!(opened.is_none());
    let taken = pass.take_buffer::<u8>(&mut guest.queue, &guest.mem);
    let (action, _) = pass.open_buffer(taken.ok().unwrap(), &guest.mem);
    assert!(matches!(action, PassAction::Fail(GpuError::CreateWriter(_))));
    assert!(matches!(
        pass.take_buffer::<u8>(&mut guest.queue, &guest.mem),
        Err(PassAction::Finish { signal_used_queue: false })
    ));
}

#[test]
fn commands_about_memory_that_is_not_there() {
    let mut guest = Guest::new();
    guest.send(0, b"command");
    let mut pass = QueuePass::new();
    let taken = pass.take_buffer::<u8>(&mut guest.queue, &guest.mem);
    let (_, opened) = pass.open_buffer(taken.ok().unwrap(), &guest.mem);
    let (_, writer) = opened.unwrap();

    let mut chain = GpuChain::new(16);
    let hdr = CtrlHdr { type_: 0, flags: 0, fence_id: 0, ctx_id: 0, ring_idx: 0 };
    let iovecs = vec![
        MemoryPiece { addr: 0x100, len: 0x10 },
        MemoryPiece { addr: 0xfff0, len: 0x11 },
    ];
    let cmd = GpuCommand::ResourceAttachBacking { resource_id: 1, iovecs };
    assert!(matches!(
        chain.decoded::<u8>(hdr, cmd, &guest.mem),
        ChainAction::RejectAndMeasure
    ));
    assert!(matches!(chain.response(), GpuResponse::ErrInvalidParameter));
    // The buffer has no room for a response.
    assert!(matches!(
        chain.measure::<u8>(&writer),
        ChainAction::AddUsed { head: 16, len: 0 }
    ));
    // The queue has no descriptor with this index.
    assert!(matches!(
        chain.give_back(0, &mut guest.queue, &guest.mem),
        ChainAction::Finish(Err(GpuError::QueueAddUsed(_)))
    ));
    assert_eq!(guest.used(), vec![]);
}

#[test]
fn queues_are_handed_back() {
    let mut guest = Guest::with_event_idx(true);
    guest.receive(1, 4);
    assert!(guest.queue.event_idx_enabled());
    assert!(guest.queue.take(&guest.mem).is_some());
    assert!(guest.queue.take(&guest.mem).is_none());
    guest.queue.put_back();
    assert!(guest.queue.take(&guest.mem).is_some());
    let queue = guest.queue.into_queue();
    assert_eq!(queue.next_avail(), 1);
    assert_eq!(queue.used_ring(), USED_RING);
}
