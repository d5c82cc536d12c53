use virtio_devices::events::manager::{ControlOperation, EpollEvent, EpollRequest, EventSource};
use virtio_devices::events::token::EventToken;
use virtio_devices::console::port_io::{
    read_to_desc, read_volatile, write_desc_to_output, PortEvent, WriteStep,
};
use virtio_devices::console::process_rx::{PartRead, PortRx, PortRxAction, PortRxEvent};
use virtio_devices::console::process_tx::{PartWritten, PortTx, PortTxAction, PortTxEvent};
use virtio_devices::console::{process_rx, process_tx};

fn read(len: usize) -> PortRxEvent<u8> {
    PortRxEvent::PartRead { part: PartRead::Read(len), eof: false }
}

fn written(len: usize) -> PortTxEvent<u8> {
    PortTxEvent::PartWritten(PartWritten::Written(len))
}

#[test]
fn tokens_of_the_port_workers() {
    for token in [
        process_rx::WorkerToken::ProcessQueue,
        process_rx::WorkerToken::IO,
        process_rx::WorkerToken::Stop,
    ] {
        assert_eq!(process_rx::WorkerToken::from_raw_token(token.as_raw_token()), token);
    }
    for token in [
        process_tx::WorkerToken::Stop,
        process_tx::WorkerToken::ProcessQueue,
        process_tx::WorkerToken::IO,
    ] {
        assert_eq!(process_tx::WorkerToken::from_raw_token(token.as_raw_token()), token);
    }
    assert_eq!(process_rx::WorkerToken::Stop.as_raw_token(), 2);
    assert_eq!(process_tx::WorkerToken::Stop.as_raw_token(), 0);
}

#[test]
fn input_fills_buffers() {
    let mut rx = PortRx::new();
    assert_eq!(
        rx.process_rx::<u8>(PortRxEvent::Started),
        PortRxAction::Wait { signals: 0 }
    );
    assert_eq!(
        rx.process_rx::<u8>(PortRxEvent::Woken(process_rx::WorkerToken::IO)),
        PortRxAction::ReadKick
    );
    assert_eq!(rx.process_rx::<u8>(PortRxEvent::KickRead(true)), PortRxAction::Lock);
    assert_eq!(rx.process_rx::<u8>(PortRxEvent::Locked(true)), PortRxAction::Pop);
    assert_eq!(rx.process_rx::<u8>(PortRxEvent::Popped(Some(3))), PortRxAction::ReadPart);
    assert_eq!(rx.process_rx(read(10)), PortRxAction::ReadPart);
    // A part that cannot be filled does not keep the others from being filled.
    assert_eq!(
        rx.process_rx(PortRxEvent::PartRead { part: PartRead::Failed(1u8), eof: false }),
        PortRxAction::ReadPart
    );
    assert_eq!(rx.process_rx(read(5)), PortRxAction::ReadPart);
    // Input that is not there yet ends the buffer.
    assert_eq!(rx.process_rx(read(0)), PortRxAction::AddUsed { head: 3, len: 15 });
    assert_eq!(rx.process_rx::<u8>(PortRxEvent::UsedAdded), PortRxAction::Pop);
    // When the queue is used up the driver is notified at once and before waiting.
    assert_eq!(
        rx.process_rx::<u8>(PortRxEvent::Popped(None)),
        PortRxAction::Wait { signals: 2 }
    );
    assert_eq!(
        rx.process_rx::<u8>(PortRxEvent::Woken(process_rx::WorkerToken::Stop)),
        PortRxAction::Finish
    );
}

#[test]
fn buffers_without_input_go_back_to_the_queue() {
    let mut rx = PortRx::new();
    rx.process_rx::<u8>(PortRxEvent::Popped(Some(3)));
    rx.process_rx(read(4));
    rx.process_rx::<u8>(PortRxEvent::PartRead { part: PartRead::NoPart, eof: false });
    rx.process_rx::<u8>(PortRxEvent::UsedAdded);
    rx.process_rx::<u8>(PortRxEvent::Popped(Some(4)));
    assert_eq!(rx.process_rx(read(0)), PortRxAction::Rewind);
    assert_eq!(
        rx.process_rx::<u8>(PortRxEvent::Rewound),
        PortRxAction::Wait { signals: 1 }
    );
    assert_eq!(
        rx.process_rx::<u8>(PortRxEvent::KickRead(false)),
        PortRxAction::Wait { signals: 0 }
    );
    assert_eq!(
        rx.process_rx::<u8>(PortRxEvent::Locked(false)),
        PortRxAction::Wait { signals: 0 }
    );
    assert_eq!(
        rx.process_rx::<u8>(PortRxEvent::Popped(None)),
        PortRxAction::Wait { signals: 0 }
    );
}

#[test]
fn the_end_of_the_input_closes_the_port() {
    let mut rx = PortRx::new();
    rx.process_rx::<u8>(PortRxEvent::Popped(Some(3)));
    rx.process_rx(read(4));
    assert_eq!(
        rx.process_rx::<u8>(PortRxEvent::PartRead { part: PartRead::Read(0), eof: true }),
        PortRxAction::AddUsed { head: 3, len: 4 }
    );
    assert_eq!(rx.process_rx::<u8>(PortRxEvent::UsedAdded), PortRxAction::Close);
}

#[test]
fn output_empties_buffers() {
    let mut tx = PortTx::new();
    assert_eq!(
        tx.process_tx::<u8>(PortTxEvent::Started),
        PortTxAction::Wait { signal: false }
    );
    assert_eq!(
        tx.process_tx::<u8>(PortTxEvent::Woken(process_tx::WorkerToken::ProcessQueue)),
        PortTxAction::ReadKick
    );
    assert_eq!(tx.process_tx::<u8>(PortTxEvent::KickRead(true)), PortTxAction::Lock);
    assert_eq!(tx.process_tx::<u8>(PortTxEvent::Locked(true)), PortTxAction::Pop);
    assert_eq!(tx.process_tx::<u8>(PortTxEvent::Popped(Some(9))), PortTxAction::WritePart);
    assert_eq!(tx.process_tx(written(100)), PortTxAction::WritePart);
    assert_eq!(
        tx.process_tx(PortTxEvent::PartWritten(PartWritten::Failed(1u8))),
        PortTxAction::WritePart
    );
    assert_eq!(tx.process_tx(written(20)), PortTxAction::WritePart);
    assert_eq!(
        tx.process_tx::<u8>(PortTxEvent::PartWritten(PartWritten::NoPart)),
        PortTxAction::AddUsed { head: 9, len: 120 }
    );
    assert_eq!(tx.process_tx::<u8>(PortTxEvent::UsedAdded), PortTxAction::Pop);
    assert_eq!(
        tx.process_tx::<u8>(PortTxEvent::Popped(None)),
        PortTxAction::Wait { signal: true }
    );
    assert_eq!(tx.process_tx::<u8>(PortTxEvent::Popped(Some(1))), PortTxAction::WritePart);
    assert_eq!(tx.process_tx(written(0)), PortTxAction::Rewind);
    assert_eq!(
        tx.process_tx::<u8>(PortTxEvent::Rewound),
        PortTxAction::Wait { signal: false }
    );
    assert_eq!(
        tx.process_tx::<u8>(PortTxEvent::KickRead(false)),
        PortTxAction::Wait { signal: false }
    );
    assert_eq!(
        tx.process_tx::<u8>(PortTxEvent::Locked(false)),
        PortTxAction::Wait { signal: false }
    );
    assert_eq!(
        tx.process_tx::<u8>(PortTxEvent::Woken(process_tx::WorkerToken::Stop)),
        PortTxAction::Finish
    );
}

#[test]
fn events_of_descriptors() {
    let event = PortEvent::input_ready(3);
    assert_eq!(
        event.register_self(8),
        Some(EpollRequest {
            operation: ControlOperation::Add,
            fd: 3,
            event: EpollEvent { events: 0x8000_0001, data: 8 },
        })
    );
    assert_eq!(
        event.unregister_self(),
        Some(EpollRequest {
            operation: ControlOperation::Delete,
            fd: 3,
            event: EpollEvent { events: 0x8000_0001, data: 0 },
        })
    );
    let request = PortEvent::output_ready(4).register_self(0).unwrap();
    assert_eq!((request.fd, request.event.events), (4, 0x8000_0004));
    assert_eq!(PortEvent::new(5, 0x10).register_self(1).unwrap().event.events, 0x10);
}

#[test]
fn bytes_that_a_read_may_have_changed() {
    assert_eq!(read_volatile(5, 10, false), (Some(5), 5));
    assert_eq!(read_volatile(0, 10, false), (Some(0), 0));
    assert_eq!(read_volatile(-1, 10, false), (None, 10));
    assert_eq!(read_volatile(-1, 10, true), (None, 0));
}

#[test]
fn reads_into_buffers() {
    let mut eof = false;
    assert_eq!(read_to_desc::<u8>(Ok(3), false, &mut eof), Ok(3));
    assert_eq!(read_to_desc(Err(1u8), true, &mut eof), Ok(0));
    assert_eq!(read_to_desc(Err(2u8), false, &mut eof), Err(2));
    assert!(!eof);
    assert_eq!(read_to_desc::<u8>(Ok(0), false, &mut eof), Ok(0));
    assert!(eof);
    assert_eq!(read_to_desc::<u8>(Ok(3), false, &mut eof), Ok(3));
    assert!(eof);
}

#[test]
fn writes_of_buffers() {
    assert!(matches!(write_desc_to_output::<u8>(Ok(3), false), WriteStep::Done(Ok(3))));
    assert!(matches!(write_desc_to_output(Err(1u8), false), WriteStep::Done(Err(1))));
    assert!(matches!(write_desc_to_output(Err(1u8), true), WriteStep::WaitUntilWritable));
}
