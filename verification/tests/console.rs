use std::collections::BTreeMap;
use virtio_devices::console::control::{
    ConsoleControl, Payload, VirtioConsoleControl, VirtioConsoleResize,
};
use virtio_devices::console::device::{Console, VirtioConsoleConfig};
use virtio_devices::console::worker::{
    ControlRx, ControlTx, MainWorker, RxAction, RxEvent, TxAction, TxEvent, WorkerEvent,
    WorkerStep, WorkerToken,
};
use virtio_devices::events::token::EventToken;
use virtio_devices::console::port::{Port, PortDescription, PortShutdown};
use virtio_devices::console::port_queue_mapping::{num_queues, port_id_to_queue_idx, QueueDirection};
use virtio_devices::virtio::device::{DeviceError, VirtioDevice};

type Worker = MainWorker<u8, u8, u32>;

fn descriptions() -> Vec<PortDescription<u8, u8>> {
    vec![
        PortDescription::Console { input: Some(1), output: Some(2) },
        PortDescription::InputPipe { name: "log".to_string(), input: 3 },
        PortDescription::OutputPipe { name: "".to_string(), output: 4 },
    ]
}

fn queues(count: usize) -> BTreeMap<usize, u32> {
    (0..count).map(|i| (i, 100 + i as u32)).collect()
}

fn worker() -> Worker {
    let ports = descriptions()
        .into_iter()
        .enumerate()
        .map(|(id, description)| Port::new(id as u32, description))
        .collect();
    MainWorker::new(queues(8), ports)
}

fn message(id: u32, event: u16, value: u16) -> Vec<u8> {
    VirtioConsoleControl { id, event, value }.to_bytes()
}

fn drain(control: &mut ConsoleControl) -> Vec<Vec<u8>> {
    let mut messages = Vec::new();
    while let Some(payload) = control.queue_pop() {
        messages.push(payload.into_bytes());
    }
    messages
}

fn receive(worker: &mut Worker, bytes: Vec<u8>) -> (TxAction, Vec<Vec<u8>>) {
    let mut tx = ControlTx { raise_irq: false };
    let action = worker.process_tx(&mut tx, TxEvent::Popped(Some(bytes)));
    assert!(tx.raise_irq);
    (action, drain(worker.control_mut()))
}

#[test]
fn queues_of_ports() {
    assert_eq!(port_id_to_queue_idx(QueueDirection::Rx, 0), 0);
    assert_eq!(port_id_to_queue_idx(QueueDirection::Tx, 0), 1);
    assert_eq!(port_id_to_queue_idx(QueueDirection::Rx, 1), 4);
    assert_eq!(port_id_to_queue_idx(QueueDirection::Tx, 1), 5);
    assert_eq!(port_id_to_queue_idx(QueueDirection::Rx, 2), 6);
    assert_eq!(port_id_to_queue_idx(QueueDirection::Tx, 2), 7);
    assert_eq!(num_queues(1), 4);
    assert_eq!(num_queues(3), 8);
}

#[test]
fn control_messages_as_bytes() {
    assert_eq!(message(0x0403_0201, 6, 1), vec![1, 2, 3, 4, 6, 0, 1, 0]);
    let parsed = VirtioConsoleControl::from_bytes(&[1, 2, 3, 4, 6, 0, 1, 2, 99]).unwrap();
    assert_eq!(parsed, VirtioConsoleControl { id: 0x0403_0201, event: 6, value: 0x0201 });
    assert!(VirtioConsoleControl::from_bytes(&[0; 7]).is_none());
    let control = VirtioConsoleControl { id: u32::MAX, event: u16::MAX, value: 258 };
    assert_eq!(VirtioConsoleControl::from_bytes(&control.to_bytes()), Some(control));
    assert_eq!(Payload::Bytes(vec![1, 2]).into_bytes(), vec![1, 2]);
    assert_eq!(Payload::ConsoleControl(control).into_bytes(), control.to_bytes());
}

#[test]
fn messages_keep_their_kind() {
    let mut control = ConsoleControl::new();
    control.port_name(1, "ab");
    let expected = vec![1, 0, 0, 0, 7, 0, 1, 0, 97, 98];
    assert!(matches!(control.queue_pop(), Some(Payload::Bytes(bytes)) if bytes == expected));
    control.port_add(2);
    let expected = VirtioConsoleControl { id: 2, event: 1, value: 0 };
    assert!(
        matches!(control.queue_pop(), Some(Payload::ConsoleControl(added)) if added == expected)
    );
    assert!(control.queue_pop().is_none());
}

#[test]
fn messages_wait_in_order() {
    let mut control = ConsoleControl::new();
    assert!(control.queue_pop().is_none());
    control.port_add(7);
    control.mark_console_port(7);
    control.port_open(7, true);
    control.port_open(7, false);
    control.console_resize(7, VirtioConsoleResize { rows: 24, cols: 80 });
    control.port_name(7, "hi");
    assert_eq!(
        drain(&mut control),
        vec![
            message(7, 1, 0),
            message(7, 4, 1),
            message(7, 6, 1),
            message(7, 6, 0),
            [message(7, 5, 0), vec![24, 0, 80, 0]].concat(),
            [message(7, 7, 1), b"hi".to_vec()].concat(),
        ]
    );
}

#[test]
fn ports_start_and_stop() {
    let mut descriptions = descriptions();
    let mut output = Port::new(2, descriptions.pop().unwrap());
    let mut input = Port::new(1, descriptions.pop().unwrap());
    let mut console = Port::new(0, descriptions.pop().unwrap());
    assert!(console.is_console() && console.name().is_empty() && console.port_id() == 0);
    assert!(!input.is_console() && input.name() == "log");
    assert_eq!((*console.input(), *console.output()), (Some(1), Some(2)));
    assert_eq!((*input.input(), *input.output()), (Some(3), None));
    assert_eq!((*output.input(), *output.output()), (None, Some(4)));

    let nothing = PortShutdown { signal: false, tx: false, rx: false };
    assert_eq!(console.shutdown(), nothing);
    let start = console.start("rx", "tx");
    assert_eq!((start.rx, start.tx, start.shutdown), (Some("rx"), Some("tx"), nothing));
    let start = input.start("rx", "tx");
    assert_eq!((start.rx, start.tx), (Some("rx"), None));
    let start = output.start("rx", "tx");
    assert_eq!((start.rx, start.tx), (None, Some("tx")));

    let start = console.start("rx", "tx");
    assert_eq!(start.shutdown, PortShutdown { signal: true, tx: true, rx: true });
    assert_eq!(input.shutdown(), PortShutdown { signal: true, tx: false, rx: true });
    assert_eq!(input.shutdown(), PortShutdown { signal: true, tx: false, rx: false });
}

#[test]
fn descriptions_of_ports() {
    let incomplete = PortDescription::<u8, u8>::Console { input: Some(1), output: None };
    assert!(!incomplete.is_complete());
    assert!(incomplete.is_console());
    assert!(descriptions().iter().all(|description| description.is_complete()));
    assert!(!descriptions()[1].is_console());
}

#[test]
fn the_worker_starts_all_ports() {
    let mut worker = worker();
    assert_eq!(*worker.control_rxq(), 102);
    assert_eq!(*worker.control_txq(), 103);
    let starts = worker.take_starts();
    assert_eq!(starts.len(), 3);
    assert_eq!((starts[0].rx, starts[0].tx), (Some(100), Some(101)));
    assert_eq!((starts[1].rx, starts[1].tx), (Some(104), None));
    assert_eq!((starts[2].rx, starts[2].tx), (None, Some(107)));
    assert!(worker.take_starts().is_empty());
    assert_eq!(worker.ports().len(), 3);
}

#[test]
fn events_of_the_worker() {
    assert_eq!(Worker::watch(WorkerEvent::ControlRxKick), WorkerToken::ControlRxq);
    assert_eq!(Worker::watch(WorkerEvent::MessageAdded), WorkerToken::ControlRxq);
    assert_eq!(Worker::watch(WorkerEvent::ControlTxKick), WorkerToken::ControlTxq);
    assert_eq!(Worker::watch(WorkerEvent::Stop), WorkerToken::Quit);
    assert_eq!(Worker::run(WorkerToken::ControlRxq), WorkerStep::ProcessRx);
    assert_eq!(Worker::run(WorkerToken::ControlTxq), WorkerStep::ProcessTx);
    assert_eq!(Worker::run(WorkerToken::Quit), WorkerStep::Quit);
    for token in [WorkerToken::ControlRxq, WorkerToken::ControlTxq, WorkerToken::Quit] {
        assert_eq!(WorkerToken::from_raw_token(token.as_raw_token()), token);
    }
}

#[test]
fn the_driver_is_told_of_all_ports() {
    let used = TxAction::AddUsed { head: 0, len: 8 };
    let (action, replies) = receive(&mut worker(), message(0, 0, 1));
    assert_eq!(action, used);
    assert_eq!(replies, vec![message(0, 1, 0), message(1, 1, 0), message(2, 1, 0)]);
}

#[test]
fn the_driver_is_told_of_a_ready_port() {
    let (_, replies) = receive(&mut worker(), message(0, 3, 1));
    assert_eq!(
        replies,
        vec![
            message(0, 4, 1),
            message(0, 6, 1),
            [message(0, 5, 0), vec![24, 0, 80, 0]].concat(),
        ]
    );
    let (_, replies) = receive(&mut worker(), message(1, 3, 1));
    assert_eq!(replies, vec![message(1, 6, 1), [message(1, 7, 1), b"log".to_vec()].concat()]);
    let (_, replies) = receive(&mut worker(), message(2, 3, 1));
    assert_eq!(replies, vec![message(2, 6, 1)]);
    // A port that could not be made ready is left alone.
    let (_, replies) = receive(&mut worker(), message(9, 3, 0));
    assert!(replies.is_empty());
}

#[test]
fn other_messages_have_no_reply() {
    for (event, value) in [(6, 0), (6, 1), (6, 2), (42, 0)] {
        let (action, replies) = receive(&mut worker(), message(0, event, value));
        assert_eq!(action, TxAction::AddUsed { head: 0, len: 8 });
        assert!(replies.is_empty());
    }
    // Half a message is not acknowledged.
    let (action, replies) = receive(&mut worker(), vec![0; 4]);
    assert_eq!(action, TxAction::Pop);
    assert!(replies.is_empty());
}

#[test]
fn messages_that_name_no_port() {
    let worker = worker();
    assert!(worker.accepts(VirtioConsoleControl { id: 2, event: 3, value: 1 }));
    assert!(!worker.accepts(VirtioConsoleControl { id: 3, event: 3, value: 1 }));
    assert!(worker.accepts(VirtioConsoleControl { id: 3, event: 3, value: 0 }));
    assert!(worker.accepts(VirtioConsoleControl { id: 3, event: 6, value: 1 }));
}

#[test]
fn receiving_messages_step_by_step() {
    let mut worker = worker();
    let mut tx = ControlTx { raise_irq: false };
    assert_eq!(worker.process_tx(&mut tx, TxEvent::Started), TxAction::ReadKick);
    let stop = TxAction::Finish { signal: false };
    assert_eq!(worker.process_tx(&mut tx, TxEvent::KickRead(false)), stop);
    assert_eq!(worker.process_tx(&mut tx, TxEvent::KickRead(true)), TxAction::Lock);
    assert_eq!(worker.process_tx(&mut tx, TxEvent::Locked(false)), stop);
    assert_eq!(worker.process_tx(&mut tx, TxEvent::Locked(true)), TxAction::Pop);
    assert_eq!(
        worker.process_tx(&mut tx, TxEvent::Popped(None)),
        TxAction::Finish { signal: false }
    );
    let event = TxEvent::Popped(Some(message(1, 3, 1)));
    assert_eq!(worker.process_tx(&mut tx, event), TxAction::AddUsed { head: 0, len: 8 });
    assert_eq!(worker.process_tx(&mut tx, TxEvent::UsedAdded), TxAction::Pop);
    assert_eq!(
        worker.process_tx(&mut tx, TxEvent::Popped(None)),
        TxAction::Finish { signal: true }
    );
}

#[test]
fn sending_messages_step_by_step() {
    let mut worker = worker();
    worker.control_mut().port_add(1);
    worker.control_mut().port_add(2);
    worker.control_mut().port_add(3);
    let mut rx = ControlRx::new();
    assert!(matches!(worker.process_rx::<u8>(&mut rx, RxEvent::Started), RxAction::ReadKick));
    assert!(matches!(
        worker.process_rx::<u8>(&mut rx, RxEvent::KickRead(false)),
        RxAction::Finish { signal: false }
    ));
    assert!(matches!(
        worker.process_rx::<u8>(&mut rx, RxEvent::KickRead(true)),
        RxAction::ResetAndLock
    ));
    assert!(matches!(
        worker.process_rx::<u8>(&mut rx, RxEvent::Locked(false)),
        RxAction::Finish { signal: false }
    ));
    assert!(matches!(
        worker.process_rx::<u8>(&mut rx, RxEvent::Locked(true)),
        RxAction::Pop
    ));
    // A message that does not fit is lost.
    match worker.process_rx::<u8>(&mut rx, RxEvent::Popped(Some(5))) {
        RxAction::Write { head: 5, message: bytes } => assert_eq!(bytes, message(1, 1, 0)),
        _ => unreachable!(),
    }
    assert!(matches!(worker.process_rx::<u8>(&mut rx, RxEvent::Written(Ok(4))), RxAction::Pop));
    worker.process_rx::<u8>(&mut rx, RxEvent::Popped(Some(6)));
    assert!(matches!(worker.process_rx(&mut rx, RxEvent::Written(Err(1u8))), RxAction::Pop));
    assert!(!rx.raise_irq);
    // One that fits goes back to the driver.
    match worker.process_rx::<u8>(&mut rx, RxEvent::Popped(Some(7))) {
        RxAction::Write { head: 7, message: bytes } => assert_eq!(bytes, message(3, 1, 0)),
        _ => unreachable!(),
    }
    assert!(matches!(
        worker.process_rx::<u8>(&mut rx, RxEvent::Written(Ok(8))),
        RxAction::AddUsed { head: 7, len: 8 }
    ));
    assert!(matches!(worker.process_rx::<u8>(&mut rx, RxEvent::UsedAdded), RxAction::Pop));
    // A buffer for which there is no message goes back to the queue.
    assert!(matches!(
        worker.process_rx::<u8>(&mut rx, RxEvent::Popped(Some(8))),
        RxAction::Rewind
    ));
    assert!(matches!(
        worker.process_rx::<u8>(&mut rx, RxEvent::Rewound),
        RxAction::Finish { signal: true }
    ));
    assert!(matches!(
        worker.process_rx::<u8>(&mut ControlRx::new(), RxEvent::Popped(None)),
        RxAction::Finish { signal: false }
    ));
}

#[test]
fn console_configuration() {
    assert_eq!(
        VirtioConsoleConfig::new(80, 24, 0x0102_0304).to_bytes(),
        vec![80, 0, 24, 0, 4, 3, 2, 1, 0, 0, 0, 0]
    );
    let console: Console<u8, u8, u32> = Console::new(descriptions());
    let mut data = [9u8; 6];
    assert_eq!(console.read_config(2, &mut data), Ok(()));
    assert_eq!(data, [24, 0, 3, 0, 0, 0]);
    let mut data = [9u8; 4];
    assert_eq!(console.read_config(10, &mut data), Ok(()));
    assert_eq!(data, [0, 0, 9, 9]);
    assert_eq!(console.read_config(12, &mut data), Err(DeviceError::InvalidOffset));
    assert_eq!(data, [0, 0, 9, 9]);
}

#[test]
fn console_device() {
    let mut console: Console<u8, u8, u32> = Console::new(descriptions());
    assert_eq!(console.device_type(), 3);
    assert_eq!(console.avail_features(), 0x1_0000_0003);
    assert_eq!(console.acked_features(), 0);
    console.set_acked_features(u64::MAX);
    assert_eq!(console.acked_features(), 0x1_0000_0003);
    console.set_acked_features(0x12);
    assert_eq!(console.acked_features(), 0x2);
    assert_eq!(console.queues().len(), 8);
    assert!(console.queues().iter().all(|args| args.max_size() == 256));
    assert_eq!(console.write_config(0, &[1]), Err(DeviceError::ConfigWriteUnsupported));
    assert_eq!(console.update_memory(), Ok(()));

    assert!(console.take_worker().is_none());
    // Before an activation, the console can still be activated after a reset.
    assert!(console.reset());
    assert_eq!(console.activate(queues(8)), Ok(()));
    let mut worker = console.take_worker().unwrap();
    assert_eq!(worker.take_starts().len(), 3);
    assert!(console.take_worker().is_none());
    // The ports went to the worker.
    assert!(!console.reset());
}

#[test]
fn a_stopped_console_has_no_worker() {
    let mut console: Console<u8, u8, u32> = Console::new(descriptions());
    console.activate(queues(8)).unwrap();
    console.stop();
    assert!(console.take_worker().is_none());
}
