//! What the calls of a console do to what they are given.

use crate::console::control::{ConsoleControl, Payload, VirtioConsoleControl, VirtioConsoleResize};
use crate::console::device::Console;
use crate::console::laws::told;
use crate::console::port::{Port, PortDescription, PortShutdown, PortStart, PortState};
use crate::console::process_rx::{Filling, PortRx, PortRxAction, PortRxEvent};
use crate::console::process_tx::{Emptying, PortTx, PortTxAction, PortTxEvent};
use crate::console::worker::{
    ControlRx, ControlTx, MainWorker, MainWorkerView, RxAction, RxEvent, TxAction, TxEvent, TxFault,
};
use crate::virtio::device::{DeviceError, VirtioDevice};
use crate::virtio::guest_queue::TakenBuffer;
use crate::virtio::locked_queue::{LockedQueue, LockedQueueView, ReadableBuffer, UsedEntry};
use crate::virtio::locked_queue::WritableBuffer;
use std::collections::BTreeMap;
use vm_memory::GuestMemoryMmap;
use vstd::prelude::*;

verus! {

/// The worker for an input starts with nothing read and nothing to tell, and goes on as each event
/// demands.
pub proof fn lemma_input_worker_follows_events<E>(
    new: PortRx,
    event: PortRxEvent<E>,
    action: PortRxAction,
)
    requires
        call_ensures(PortRx::new, (), new),
    ensures
        !new.eof && !new.signal_used_queue && new.filling is None,
        forall|rx: &mut PortRx|
            (#[trigger] call_ensures(PortRx::process_rx::<E>, (rx, event), action)) ==> {
                let (after, due) = (*rx).after(event);
                *final(rx) == after && action == due
            },
        forall|rx: &mut PortRx|
            (#[trigger] call_ensures(PortRx::process_rx::<E>, (rx, event), action)) && (
            event matches PortRxEvent::Woken(_)) ==> {
                &&& *final(rx) == *rx
                &&& event->Woken_0 is Stop ==> action is Finish
                &&& !(event->Woken_0 is Stop) ==> action is ReadKick
            },
{
}

/// The worker for an output starts with nothing written and nothing to tell, and goes on as each event
/// demands.
pub proof fn lemma_output_worker_follows_events<E>(
    new: PortTx,
    event: PortTxEvent<E>,
    action: PortTxAction,
)
    requires
        call_ensures(PortTx::new, (), new),
    ensures
        !new.signal_used_queue && new.emptying is None,
        forall|tx: &mut PortTx|
            (#[trigger] call_ensures(PortTx::process_tx::<E>, (tx, event), action)) ==> {
                let (after, due) = (*tx).after(event);
                *final(tx) == after && action == due
            },
        forall|tx: &mut PortTx|
            (#[trigger] call_ensures(PortTx::process_tx::<E>, (tx, event), action)) && (
            event matches PortTxEvent::Woken(_)) ==> {
                &&& *final(tx) == *tx
                &&& event->Woken_0 is Stop ==> action is Finish
                &&& !(event->Woken_0 is Stop) ==> action is ReadKick
            },
{
}

/// Whether a queue gave a buffer out, and nothing else happened to it.
pub open spec fn gave_out(
    before: LockedQueueView,
    taken: Option<TakenBuffer>,
    after: LockedQueueView,
) -> bool {
    &&& after.record.read == before.record.read
    &&& after.record.written == before.record.written
    &&& after.record.given_back == before.record.given_back
    &&& after.record.notifications == before.record.notifications
    &&& after.fields.next_used == before.fields.next_used
    &&& taken matches Some(taken) ==> {
        &&& after.fields.next_avail == before.fields.next_avail + 1 || before.fields.next_avail
            == 65535 && after.fields.next_avail == 0
        &&& after.record.taken == before.record.taken.push(
            crate::virtio::guest_queue::chain_head(taken.chain),
        )
        &&& after.record.misses == before.record.misses
        &&& after.record.parts.len() == before.record.parts.len() + 1
        &&& after.record.parts.last().parts == taken.parts@
    }
    &&& taken is None ==> {
        &&& after.fields == before.fields
        &&& after.record.taken == before.record.taken
        &&& after.record.misses == before.record.misses + 1
    }
}

/// The workers take one buffer of the queue at a time, and start with the first part of it that they
/// may use, with nothing read or written yet. Without a buffer they wait.
pub proof fn lemma_workers_take_buffers(
    mem: &GuestMemoryMmap<()>,
    filled: (PortRxAction, Option<TakenBuffer>),
    emptied: (PortTxAction, Option<TakenBuffer>),
    i: int,
)
    ensures
        forall|rx: &mut PortRx, queue: &mut LockedQueue|
            (#[trigger] call_ensures(PortRx::take_buffer, (rx, queue, mem), filled)) ==> {
                &&& gave_out((*queue)@, filled.1, (*final(queue))@)
                &&& filled.1 matches Some(buffer) ==> {
                    &&& filled.0 is ReadPart
                    &&& 0 <= i < buffer.parts@.len() ==> buffer.parts@[i].write_only
                    &&& (*final(rx)).filling == Some(
                        Filling {
                            head: crate::virtio::guest_queue::chain_head(buffer.chain),
                            bytes_read: 0,
                        },
                    )
                }
                &&& filled.1 is None ==> filled.0 is Wait
            },
        forall|tx: &mut PortTx, queue: &mut LockedQueue|
            (#[trigger] call_ensures(PortTx::take_buffer, (tx, queue, mem), emptied)) ==> {
                &&& gave_out((*queue)@, emptied.1, (*final(queue))@)
                &&& emptied.1 matches Some(buffer) ==> {
                    &&& emptied.0 is WritePart
                    &&& 0 <= i < buffer.parts@.len() ==> !buffer.parts@[i].write_only
                    &&& (*final(tx)).emptying == Some(
                        Emptying {
                            head: crate::virtio::guest_queue::chain_head(buffer.chain),
                            bytes_written: 0,
                        },
                    )
                }
                &&& emptied.1 is None ==> emptied.0 is Wait
            },
{
}

/// Whether a queue was given a buffer back by its driver's device, and nothing else happened to it.
pub open spec fn got_back(
    mem: GuestMemoryMmap<()>,
    before: LockedQueueView,
    head: u16,
    len: u32,
    after: LockedQueueView,
) -> bool {
    let possible = crate::virtio::guest_queue::can_add_used(before.fields, mem, head);
    &&& after.record.taken == before.record.taken
    &&& after.record.written == before.record.written
    &&& after.record.read == before.record.read
    &&& after.fields.next_avail == before.fields.next_avail
    &&& possible ==> after.record.given_back == before.record.given_back.push(
        UsedEntry { head, len },
    )
    &&& !possible ==> after.record.given_back == before.record.given_back
}

/// Whether the buffer that was taken last was put back into a queue, and nothing else happened to it.
pub open spec fn was_rewound(before: LockedQueueView, after: LockedQueueView) -> bool {
    &&& after.record.given_back == before.record.given_back
    &&& after.record.written == before.record.written
    &&& after.record.read == before.record.read
    &&& after.fields.next_used == before.fields.next_used
    &&& before.fields.next_avail > 0 ==> after.fields.next_avail == before.fields.next_avail - 1
    &&& before.fields.next_avail == 0 ==> after.fields.next_avail == 65535
    &&& before.record.taken.len() > 0 ==> after.record.taken == before.record.taken.drop_last()
}

/// The workers give back the buffer they were told to, with the length they were told, or put it back.
/// Then the next one is taken, unless the input is at its end, or the buffer was put back.
pub proof fn lemma_workers_return_buffers(
    mem: &GuestMemoryMmap<()>,
    filled: PortRxAction,
    then_fill: PortRxAction,
    emptied: PortTxAction,
    then_empty: PortTxAction,
)
    ensures
        forall|rx: &mut PortRx, queue: &mut LockedQueue|
            (#[trigger] call_ensures(PortRx::return_buffer, (rx, filled, queue, mem), then_fill))
                ==> {
                &&& filled matches PortRxAction::AddUsed { head, len } ==> {
                    &&& got_back(*mem, (*queue)@, head, len, (*final(queue))@)
                    &&& *final(rx) == *rx
                    &&& (*rx).eof ==> then_fill is Close
                    &&& !(*rx).eof ==> then_fill is Pop
                }
                &&& filled is Rewind ==> was_rewound((*queue)@, (*final(queue))@)
                    && then_fill is Wait
            },
        forall|tx: &mut PortTx, queue: &mut LockedQueue|
            (#[trigger] call_ensures(PortTx::return_buffer, (tx, emptied, queue, mem), then_empty))
                ==> {
                &&& emptied matches PortTxAction::AddUsed { head, len } ==> {
                    &&& got_back(*mem, (*queue)@, head, len, (*final(queue))@)
                    &&& *final(tx) == *tx
                    &&& then_empty is Pop
                }
                &&& emptied is Rewind ==> was_rewound((*queue)@, (*final(queue))@)
                    && then_empty is Wait
            },
{
}

/// What a read of the input gives: as many bytes as were read, none if there are none yet, and the
/// error otherwise. Only a read of nothing is the end of the input, and that is not forgotten.
pub proof fn lemma_end_of_the_input<E>(
    read: Result<usize, E>,
    would_block: bool,
    result: Result<usize, E>,
)
    ensures
        forall|eof: &mut bool| #[trigger]
            call_ensures(
                crate::console::port_io::read_to_desc::<E>,
                (read, would_block, eof),
                result,
            ) ==> {
                &&& *final(eof) <==> *eof || (read matches Ok(n) && n == 0)
                &&& read is Ok ==> result == read
                &&& read is Err && would_block ==> result == Ok::<usize, E>(0)
                &&& read is Err && !would_block ==> result == read
            },
{
}

/// A message for the driver is added behind those that wait, which stay as they are, and names its
/// port, its kind and its value.
pub proof fn lemma_messages_are_added(
    port: u32,
    open: bool,
    size: VirtioConsoleResize,
    name: &str,
)
    ensures
        forall|control: &mut ConsoleControl|
            (#[trigger] call_ensures(ConsoleControl::mark_console_port, (control, port), ())) ==> {
                let waiting = (*final(control))@;
                &&& waiting.len() == (*control)@.len() + 1
                &&& waiting.drop_last() == (*control)@
                &&& told(waiting.last()) == (VirtioConsoleControl { id: port, event: 4, value: 1 })
            },
        forall|control: &mut ConsoleControl|
            (#[trigger] call_ensures(ConsoleControl::port_add, (control, port), ())) ==> {
                let waiting = (*final(control))@;
                &&& waiting.len() == (*control)@.len() + 1
                &&& waiting.drop_last() == (*control)@
                &&& told(waiting.last()) == (VirtioConsoleControl { id: port, event: 1, value: 0 })
            },
        forall|control: &mut ConsoleControl|
            (#[trigger] call_ensures(ConsoleControl::port_open, (control, port, open), ())) ==> {
                let waiting = (*final(control))@;
                &&& waiting.len() == (*control)@.len() + 1
                &&& waiting.drop_last() == (*control)@
                &&& told(waiting.last()).id == port
                &&& told(waiting.last()).event == 6
                &&& open ==> told(waiting.last()).value == 1
                &&& !open ==> told(waiting.last()).value == 0
            },
        forall|control: &mut ConsoleControl|
            (#[trigger] call_ensures(ConsoleControl::console_resize, (control, port, size), ()))
                ==> {
                let waiting = (*final(control))@;
                let bytes = waiting.last().spec_bytes();
                &&& waiting.len() == (*control)@.len() + 1
                &&& waiting.drop_last() == (*control)@
                &&& told(waiting.last()) == (VirtioConsoleControl { id: port, event: 5, value: 0 })
                &&& bytes.len() == 12
                &&& size.rows == bytes[8] + 256 * bytes[9]
                &&& size.cols == bytes[10] + 256 * bytes[11]
            },
        forall|control: &mut ConsoleControl|
            (#[trigger] call_ensures(ConsoleControl::port_name, (control, port, name), ())) ==> {
                let waiting = (*final(control))@;
                &&& waiting.len() == (*control)@.len() + 1
                &&& waiting.drop_last() == (*control)@
                &&& told(waiting.last()) == (VirtioConsoleControl { id: port, event: 7, value: 1 })
                &&& waiting.last().spec_bytes().skip(8) == vstd::utf8::encode_utf8(name@)
            },
{
    crate::console::laws::lemma_messages_of_the_device(
        port,
        open,
        size,
        vstd::utf8::encode_utf8(name@),
    );
    assert forall|control: &mut ConsoleControl|
        (#[trigger] call_ensures(ConsoleControl::mark_console_port, (control, port), ()))
        implies (*final(control))@.drop_last() == (*control)@ by {
        assert((*final(control))@.drop_last() =~= (*control)@);
    }
    assert forall|control: &mut ConsoleControl|
        (#[trigger] call_ensures(ConsoleControl::port_add, (control, port), ()))
        implies (*final(control))@.drop_last() == (*control)@ by {
        assert((*final(control))@.drop_last() =~= (*control)@);
    }
    assert forall|control: &mut ConsoleControl|
        (#[trigger] call_ensures(ConsoleControl::port_open, (control, port, open), ()))
        implies (*final(control))@.drop_last() == (*control)@ by {
        assert((*final(control))@.drop_last() =~= (*control)@);
    }
    assert forall|control: &mut ConsoleControl|
        (#[trigger] call_ensures(ConsoleControl::console_resize, (control, port, size), ()))
        implies (*final(control))@.drop_last() == (*control)@ by {
        assert((*final(control))@.drop_last() =~= (*control)@);
    }
    assert forall|control: &mut ConsoleControl|
        (#[trigger] call_ensures(ConsoleControl::port_name, (control, port, name), ()))
        implies (*final(control))@.drop_last() == (*control)@ by {
        assert((*final(control))@.drop_last() =~= (*control)@);
    }
}

/// Messages are taken out in the order in which they were added, one at a time, and none is lost. What
/// is sent of a message are its bytes.
pub proof fn lemma_messages_are_taken_out(payload: Option<Payload>)
    ensures
        forall|control: &mut ConsoleControl|
            (#[trigger] call_ensures(ConsoleControl::queue_pop, (control,), payload)) ==> {
                &&& payload is Some <==> (*control)@.len() > 0
                &&& payload matches Some(payload) ==> (*control)@ == seq![payload@] + (
                *final(control))@
                &&& payload is None ==> (*final(control))@ == (*control)@
            },
        payload matches Some(payload) ==> forall|bytes: Vec<u8>|
            (#[trigger] call_ensures(Payload::into_bytes, (payload,), bytes)) ==> bytes@
                == payload@.spec_bytes(),
{
    assert forall|control: &mut ConsoleControl|
        (#[trigger] call_ensures(ConsoleControl::queue_pop, (control,), payload)) && payload is Some
        implies (*control)@ == seq![payload->0@] + (*final(control))@ by {
        assert((*control)@ =~= seq![payload->0@] + (*final(control))@);
    }
}

/// A message is read as it was written, also if more bytes follow it. Fewer bytes than a message has
/// are none.
pub proof fn lemma_written_messages_are_read(
    message: VirtioConsoleControl,
    bytes: Vec<u8>,
    buffer: &[u8],
    read: Option<VirtioConsoleControl>,
)
    requires
        call_ensures(VirtioConsoleControl::to_bytes, (&message,), bytes),
        call_ensures(VirtioConsoleControl::from_bytes, (buffer,), read),
    ensures
        bytes@.len() == 8,
        bytes@.is_prefix_of(buffer@) ==> read == Some(message),
        read is None <==> buffer@.len() < 8,
{
    crate::console::control::lemma_control_round_trip(message);
    if bytes@.is_prefix_of(buffer@) {
        let data = buffer@.skip(8);
        crate::console::laws::lemma_message_with_data(message, data);
        assert(buffer@ =~= message.spec_bytes() + data);
    }
}

/// A port is what was described, under its number, and its parts can be asked for.
pub proof fn lemma_port_is_what_was_described<I, O>(
    port_id: u32,
    description: PortDescription<I, O>,
    port: Port<I, O>,
    number: u32,
    name: &str,
    console: bool,
    input: &Option<I>,
    output: &Option<O>,
)
    requires
        call_ensures(Port::<I, O>::new, (port_id, description), port),
        call_ensures(Port::<I, O>::port_id, (&port,), number),
        call_ensures(Port::<I, O>::name, (&port,), name),
        call_ensures(Port::<I, O>::is_console, (&port,), console),
        call_ensures(Port::<I, O>::input, (&port,), input),
        call_ensures(Port::<I, O>::output, (&port,), output),
    ensures
        number == port_id,
        console <==> description is Console,
        description matches PortDescription::Console { input: i, output: o } ==> name@.len() == 0
            && *input == i && *output == o,
        description matches PortDescription::InputPipe { name: n, input: i } ==> name@ == n@
            && *input == Some(i) && *output is None,
        description matches PortDescription::OutputPipe { name: n, output: o } ==> name@ == n@
            && *input is None && *output == Some(o),
{
}

/// Starting a port starts a worker for each of its directions, on the queue of that direction, and
/// stops those that ran. Shutting it down stops the workers that run. Its name, its input and its
/// output stay.
pub proof fn lemma_ports_start_and_stop<I, O, Q>(
    rx_queue: Q,
    tx_queue: Q,
    start: PortStart<Q>,
    shutdown: PortShutdown,
)
    ensures
        forall|port: &mut Port<I, O>|
            (#[trigger] call_ensures(Port::<I, O>::start::<Q>, (port, rx_queue, tx_queue), start))
                ==> {
                let before = (*port)@;
                let after = (*final(port))@;
                &&& before.input is Some ==> start.rx == Some(rx_queue)
                &&& before.input is None ==> start.rx is None
                &&& before.output is Some ==> start.tx == Some(tx_queue)
                &&& before.output is None ==> start.tx is None
                &&& start.shutdown.signal <==> before.state is Active
                &&& before.state matches PortState::Active { rx, tx } ==> start.shutdown.rx == rx
                    && start.shutdown.tx == tx
                &&& before.state is Inactive ==> !start.shutdown.rx && !start.shutdown.tx
                &&& after.state == (PortState::Active {
                    rx: before.input is Some,
                    tx: before.output is Some,
                })
                &&& after.port_id == before.port_id
                &&& after.name == before.name
                &&& after.represents_console == before.represents_console
                &&& after.input == before.input
                &&& after.output == before.output
            },
        forall|port: &mut Port<I, O>|
            (#[trigger] call_ensures(Port::<I, O>::shutdown, (port,), shutdown)) ==> {
                let before = (*port)@;
                let after = (*final(port))@;
                &&& shutdown.signal <==> before.state is Active
                &&& before.state matches PortState::Active { rx, tx } ==> shutdown.rx == rx
                    && shutdown.tx == tx && after.state == (PortState::Active {
                    rx: false,
                    tx: false,
                })
                &&& before.state is Inactive ==> !shutdown.rx && !shutdown.tx && after == before
                &&& after.port_id == before.port_id
                &&& after.name == before.name
                &&& after.represents_console == before.represents_console
                &&& after.input == before.input
                &&& after.output == before.output
            },
{
}

/// Whether a worker changed at most in the messages that wait for the driver.
pub open spec fn same_worker<I, O, Q>(
    before: MainWorkerView<I, O, Q>,
    after: MainWorkerView<I, O, Q>,
) -> bool {
    &&& after.control_rxq == before.control_rxq
    &&& after.control_txq == before.control_txq
    &&& after.port_queues == before.port_queues
    &&& after.ports == before.ports
    &&& after.starts == before.starts
}

/// Sending and receiving go step by step, and change nothing of the worker but the messages that wait.
pub proof fn lemma_worker_follows_events<I, O, Q, E>(
    rx_event: RxEvent<E>,
    rx_action: RxAction,
    tx_event: TxEvent,
    tx_action: TxAction,
)
    ensures
        forall|rx: &mut ControlRx, control: &mut ConsoleControl|
            (#[trigger] call_ensures(
                ControlRx::process_rx::<E>,
                (rx, control, rx_event),
                rx_action,
            )) ==> crate::console::worker::rx_step(
                *rx,
                (*control)@,
                rx_event,
                rx_action,
                *final(rx),
                (*final(control))@,
            ),
        forall|worker: &mut MainWorker<I, O, Q>, rx: &mut ControlRx|
            (#[trigger] call_ensures(
                MainWorker::<I, O, Q>::process_rx::<E>,
                (worker, rx, rx_event),
                rx_action,
            )) ==> {
                &&& same_worker((*worker)@, (*final(worker))@)
                &&& crate::console::worker::rx_step(
                    *rx,
                    (*worker)@.control,
                    rx_event,
                    rx_action,
                    *final(rx),
                    (*final(worker))@.control,
                )
            },
        forall|worker: &mut MainWorker<I, O, Q>, tx: &mut ControlTx|
            (#[trigger] call_ensures(
                MainWorker::<I, O, Q>::process_tx,
                (worker, tx, tx_event),
                tx_action,
            )) ==> {
                &&& same_worker((*worker)@, (*final(worker))@)
                &&& crate::console::worker::tx_step(
                    (*worker)@.ports,
                    *tx,
                    (*worker)@.control,
                    tx_event,
                    tx_action,
                    *final(tx),
                    (*final(worker))@.control,
                )
            },
{
}

/// A message is written to the buffer it was meant for, from its first byte on and as far as there is
/// room. It is given back with its length if it fitted, and otherwise given up.
pub proof fn lemma_message_is_written<I, O, Q>(
    message: Vec<u8>,
    mem: &GuestMemoryMmap<()>,
    action: RxAction,
)
    ensures
        forall|
            worker: &mut MainWorker<I, O, Q>,
            rx: &mut ControlRx,
            buffer: &mut WritableBuffer,
            queue: &mut LockedQueue,
        |
            (#[trigger] call_ensures(
                MainWorker::<I, O, Q>::write_message,
                (worker, rx, message, buffer, queue, mem),
                action,
            )) ==> {
                let before = (*queue)@;
                let after = (*final(queue))@;
                let room = (*buffer).room();
                let head = (*buffer).head();
                &&& (*final(worker))@ == (*worker)@
                &&& action is Pop
                &&& (*final(rx)).writing is None
                &&& after.record.taken == before.record.taken
                &&& after.record.written.len() == before.record.written.len() + 1
                &&& after.record.written.last().head == head
                &&& message@.len() <= room ==> {
                    &&& (*final(rx)).raise_irq
                    &&& after.record.written.last().bytes == message@
                    &&& crate::virtio::guest_queue::can_add_used(before.fields, *mem, head)
                        ==> after.record.given_back == before.record.given_back.push(
                        UsedEntry { head, len: message@.len() as u32 },
                    )
                }
                &&& message@.len() > room ==> {
                    &&& (*final(rx)).raise_irq == (*rx).raise_irq
                    &&& after.record.written.last().bytes == message@.take(room as int)
                    &&& after.record.given_back == before.record.given_back
                }
            },
{
}

/// Messages were written completely exactly if one of them fitted into its buffer.
proof fn lemma_complete_messages(
    mem: GuestMemoryMmap<()>,
    queue: LockedQueueView,
    messages: Seq<crate::console::control::PayloadView>,
    heads: Seq<u16>,
    rooms: Seq<usize>,
)
    requires
        heads.len() == rooms.len() <= messages.len(),
    ensures
        crate::console::worker::messages_written(mem, queue, messages, heads, rooms).1
            <==> exists|i: int|
            0 <= i < heads.len() && messages[i].spec_bytes().len() <= #[trigger] rooms[i],
    decreases heads.len(),
{
    if heads.len() > 0 {
        let shorter = rooms.drop_last();
        lemma_complete_messages(mem, queue, messages, heads.drop_last(), shorter);
        let last = heads.len() - 1;
        assert(rooms.last() == rooms[last]);
        if exists|i: int|
            0 <= i < last && messages[i].spec_bytes().len() <= #[trigger] shorter[i] {
            let i = choose|i: int|
                0 <= i < last && messages[i].spec_bytes().len() <= #[trigger] shorter[i];
            assert(rooms[i] == shorter[i]);
        }
        if exists|i: int|
            0 <= i < heads.len() && messages[i].spec_bytes().len() <= #[trigger] rooms[i] {
            let i = choose|i: int|
                0 <= i < heads.len() && messages[i].spec_bytes().len() <= #[trigger] rooms[i];
            if i < last {
                assert(shorter[i] == rooms[i]);
            }
        }
    }
}

/// What was sent in one go: as many messages are gone as buffers were taken, the oldest first. Each
/// was written to its own buffer, from its first byte on and as far as there was room. It ends with
/// messages that still wait only if there was no further buffer. The driver has to be notified if it
/// had to be before, or if a message was written whole.
pub open spec fn were_sent(
    before: LockedQueueView,
    waiting: Seq<crate::console::control::PayloadView>,
    had_irq: bool,
    after: LockedQueueView,
    still_waiting: Seq<crate::console::control::PayloadView>,
    has_irq: bool,
    i: int,
) -> bool {
    let sent = after.record.written.len() - before.record.written.len();
    &&& 0 <= sent <= waiting.len()
    &&& after.record.taken.len() == before.record.taken.len() + sent
    &&& still_waiting == waiting.skip(sent)
    &&& still_waiting.len() > 0 ==> after.record.misses == before.record.misses + 1
    &&& 0 <= i < sent ==> {
        let write = after.record.written[before.record.written.len() + i];
        let message = waiting[i].spec_bytes();
        &&& write.head == after.record.taken[before.record.taken.len() + i]
        &&& message.len() <= write.room ==> write.bytes == message
        &&& message.len() > write.room ==> write.bytes == message.take(write.room as int)
        &&& message.len() <= write.room ==> has_irq
    }
    &&& has_irq && !had_irq ==> exists|j: int|
        0 <= j < sent && waiting[j].spec_bytes().len() <= (
        #[trigger] after.record.written[before.record.written.len() + j]).room
    &&& had_irq ==> has_irq
}

/// Messages are sent as long as there are messages and buffers for them, and the driver is notified in
/// the end if that is due. The worker keeps all the rest.
pub proof fn lemma_messages_are_sent<I, O, Q>(
    mem: &GuestMemoryMmap<()>,
    result: Result<RxAction, virtio_queue::Error>,
    i: int,
)
    ensures
        forall|worker: &mut MainWorker<I, O, Q>, rx: &mut ControlRx, queue: &mut LockedQueue|
            (#[trigger] call_ensures(
                MainWorker::<I, O, Q>::send_messages,
                (worker, rx, queue, mem),
                result,
            )) ==> {
                &&& same_worker((*worker)@, (*final(worker))@)
                &&& result matches Ok(action) ==> {
                    &&& action == (RxAction::Finish { signal: (*final(rx)).raise_irq })
                    &&& (*final(worker))@.control.len() < (*worker)@.control.len() ==> ((
                    *final(rx)).writing is None)
                    &&& were_sent(
                        (*queue)@,
                        (*worker)@.control,
                        (*rx).raise_irq,
                        (*final(queue))@,
                        (*final(worker))@.control,
                        (*final(rx)).raise_irq,
                        i,
                    )
                }
                &&& result is Err ==> (*final(worker))@.control.len() < (*worker)@.control.len()
            },
{
    assert forall|worker: &mut MainWorker<I, O, Q>, rx: &mut ControlRx, queue: &mut LockedQueue|
        (#[trigger] call_ensures(
            MainWorker::<I, O, Q>::send_messages,
            (worker, rx, queue, mem),
            result,
        )) implies {
        &&& same_worker((*worker)@, (*final(worker))@)
        &&& result matches Ok(action) ==> {
            &&& action == (RxAction::Finish { signal: (*final(rx)).raise_irq })
            &&& were_sent(
                (*queue)@,
                (*worker)@.control,
                (*rx).raise_irq,
                (*final(queue))@,
                (*final(worker))@.control,
                (*final(rx)).raise_irq,
                i,
            )
        }
        &&& result is Err ==> (*final(worker))@.control.len() < (*worker)@.control.len()
    } by {
        let (heads, rooms) = choose|heads: Seq<u16>, rooms: Seq<usize>|
            #[trigger] crate::console::worker::sending_ended(
                *mem,
                *rx,
                (*worker)@.control,
                (*queue)@,
                result is Err,
                *final(rx),
                (*final(worker))@.control,
                (*final(queue))@,
                heads,
                rooms,
            );
        let waiting = (*worker)@.control;
        let before = (*queue)@;
        let after = (*final(queue))@;
        if result is Ok {
            crate::console::laws::lemma_sending_goes_on(
                *mem,
                *rx,
                waiting,
                before,
                false,
                *final(rx),
                (*final(worker))@.control,
                after,
                heads,
                rooms,
            );
            crate::console::worker::lemma_messages_reach_the_driver(
                *mem,
                before,
                waiting,
                heads,
                rooms,
            );
            lemma_complete_messages(*mem, before, waiting, heads, rooms);
            let sent = heads.len() as int;
            assert(after.record.written.len() == before.record.written.len() + sent);
            assert forall|j: int| 0 <= j < sent implies {
                &&& (#[trigger] after.record.written[before.record.written.len() + j]).room
                    == rooms[j]
                &&& after.record.taken[before.record.taken.len() + j] == heads[j]
            } by {}
            if (*final(rx)).raise_irq && !(*rx).raise_irq {
                let j = choose|j: int|
                    0 <= j < heads.len() && waiting[j].spec_bytes().len() <= #[trigger] rooms[j];
                assert(after.record.written[before.record.written.len() + j].room == rooms[j]);
            }
            if 0 <= i < sent {
                assert(after.record.written[before.record.written.len() + i].room == rooms[i]);
            }
        }
    }
}

/// The messages of the driver are received one buffer at a time. Without a buffer the worker is done,
/// and notifies the driver if it took one before. A buffer that is not in the memory is told.
pub proof fn lemma_messages_are_received<I, O, Q>(
    mem: &GuestMemoryMmap<()>,
    result: Result<TxAction, TxFault>,
)
    ensures
        forall|worker: &mut MainWorker<I, O, Q>, tx: &mut ControlTx, queue: &mut LockedQueue|
            (#[trigger] call_ensures(
                MainWorker::<I, O, Q>::receive_message,
                (worker, tx, queue, mem),
                result,
            )) ==> {
                let before = (*queue)@;
                let after = (*final(queue))@;
                let waiting = (*worker)@.control;
                let then_waiting = (*final(worker))@.control;
                &&& same_worker((*worker)@, (*final(worker))@)
                &&& result matches Ok(TxAction::Finish { signal }) ==> {
                    &&& signal == (*tx).raise_irq
                    &&& *final(tx) == *tx
                    &&& then_waiting == waiting
                    &&& after.record.misses == before.record.misses + 1
                    &&& after.record.taken == before.record.taken
                }
                &&& !(result matches Ok(TxAction::Finish { .. })) ==> {
                    &&& after.record.taken.len() == before.record.taken.len() + 1
                    &&& after.record.misses == before.record.misses
                }
                &&& result matches Err(TxFault::InvalidBuffer(_)) ==> {
                    &&& *final(tx) == *tx
                    &&& then_waiting == waiting
                    &&& after.record.read == before.record.read
                }
                &&& result matches Err(TxFault::UnknownPort(id)) ==> {
                    &&& then_waiting == waiting
                    &&& after.record.read.len() == before.record.read.len() + 1
                    &&& id >= (*worker)@.ports.len()
                }
                &&& result == Ok::<TxAction, TxFault>(TxAction::Pop) ==> {
                    let bytes = after.record.read.last().bytes;
                    &&& (*final(tx)).raise_irq
                    &&& after.record.read.len() == before.record.read.len() + 1
                    &&& bytes is None ==> then_waiting == waiting
                    &&& bytes matches Some(bytes) ==> then_waiting == waiting
                        + crate::console::worker::replies(
                        (*worker)@.ports,
                        VirtioConsoleControl::of_bytes(bytes),
                    )
                }
                &&& result matches Ok(action) ==> action is Finish || action is Pop
            },
{
}

/// A buffer is read for a message exactly if it is long enough for one.
pub proof fn lemma_message_is_read<I, O, Q>(
    mem: &GuestMemoryMmap<()>,
    result: Result<TxAction, TxFault>,
)
    ensures
        forall|
            worker: &mut MainWorker<I, O, Q>,
            tx: &mut ControlTx,
            buffer: &mut ReadableBuffer,
            queue: &mut LockedQueue,
        |
            (#[trigger] call_ensures(
                MainWorker::<I, O, Q>::read_message,
                (worker, tx, buffer, queue, mem),
                result,
            )) ==> {
                let before = (*queue)@;
                let after = (*final(queue))@;
                let bytes = after.record.read.last().bytes;
                &&& same_worker((*worker)@, (*final(worker))@)
                &&& after.record.taken == before.record.taken
                &&& after.record.read.len() == before.record.read.len() + 1
                &&& after.record.read.last().head == (*buffer).head()
                &&& bytes is Some <==> (*buffer).len() >= 8
                &&& bytes matches Some(bytes) ==> {
                    let message = VirtioConsoleControl::of_bytes(bytes);
                    let unknown = message.event == 3 && message.value == 1 && message.id >= (
                    *worker)@.ports.len();
                    &&& bytes.len() == 8
                    &&& unknown ==> result == Err::<TxAction, TxFault>(
                        TxFault::UnknownPort(message.id),
                    ) && (*final(worker))@.control == (*worker)@.control
                    &&& !unknown ==> result is Ok && (*final(worker))@.control == (*worker)@.control
                        + crate::console::worker::replies((*worker)@.ports, message)
                }
                &&& bytes is None ==> result is Ok && (*final(worker))@.control
                    == (*worker)@.control
            },
{
}

/// A worker that is made starts all ports, with their queues, and hands out what is left to be done
/// once.
pub proof fn lemma_worker_starts_its_ports<I, O, Q>(
    queues: BTreeMap<usize, Q>,
    ports: Vec<Port<I, O>>,
    worker: MainWorker<I, O, Q>,
    starts: Vec<PortStart<Q>>,
    i: int,
)
    requires
        call_ensures(MainWorker::<I, O, Q>::new, (queues, ports), worker),
        0 <= i < ports@.len(),
    ensures
        worker@.control_rxq == queues@[2],
        worker@.control_txq == queues@[3],
        worker@.control.len() == 0,
        worker@.ports.len() == ports@.len(),
        worker@.starts.len() == ports@.len(),
        ({
            let port = ports@[i]@;
            let rx = if i == 0 {
                0int
            } else {
                2 + 2 * i
            };
            &&& worker@.ports[i].name == port.name
            &&& worker@.ports[i].input == port.input
            &&& worker@.ports[i].output == port.output
            &&& worker@.ports[i].state is Active
            &&& port.input is Some ==> worker@.starts[i].rx == Some(queues@[rx as usize])
            &&& port.input is None ==> worker@.starts[i].rx is None
            &&& port.output is Some ==> worker@.starts[i].tx == Some(queues@[(rx + 1) as usize])
            &&& port.output is None ==> worker@.starts[i].tx is None
        }),
        forall|starting: &mut MainWorker<I, O, Q>|
            (#[trigger] call_ensures(MainWorker::<I, O, Q>::take_starts, (starting,), starts))
                ==> {
                &&& starts@ == (*starting)@.starts
                &&& (*final(starting))@.starts.len() == 0
                &&& (*final(starting))@.ports == (*starting)@.ports
                &&& (*final(starting))@.control == (*starting)@.control
                &&& (*final(starting))@.control_rxq == (*starting)@.control_rxq
                &&& (*final(starting))@.control_txq == (*starting)@.control_txq
            },
{
}

/// A console does what it is asked: acknowledging features keeps those that it offers, an activation
/// hands its ports to a worker, stopping gives the worker up, and it can be activated again only
/// as long as it has ports.
pub proof fn lemma_console_does_what_it_is_asked<I, O, Q>(
    features: u64,
    queues: BTreeMap<usize, Q>,
    activated: Result<(), DeviceError>,
    supported: bool,
    worker: Option<MainWorker<I, O, Q>>,
)
    ensures
        forall|console: &mut Console<I, O, Q>|
            (#[trigger] call_ensures(
                <Console<I, O, Q> as VirtioDevice<Q>>::set_acked_features,
                (console, features),
                (),
            )) ==> {
                &&& (*final(console))@.acked_features == 0x1_0000_0003 & features
                &&& (*final(console))@.ports == (*console)@.ports
                &&& (*final(console))@.worker == (*console)@.worker
            },
        forall|console: &mut Console<I, O, Q>|
            (#[trigger] call_ensures(
                <Console<I, O, Q> as VirtioDevice<Q>>::activate,
                (console, queues),
                activated,
            )) ==> {
                &&& activated is Ok
                &&& (*final(console))@.worker is Some
                &&& (*final(console))@.worker_active
                &&& (*final(console))@.ports.len() == 0
                &&& (*final(console))@.worker->0.ports.len() == (*console)@.ports.len()
                &&& (*final(console))@.worker->0.control_rxq == queues@[2]
                &&& (*final(console))@.worker->0.control_txq == queues@[3]
                &&& (*final(console))@.acked_features == (*console)@.acked_features
            },
        forall|console: &mut Console<I, O, Q>|
            (#[trigger] call_ensures(
                <Console<I, O, Q> as VirtioDevice<Q>>::stop,
                (console,),
                (),
            )) ==> {
                &&& (*final(console))@.worker is None
                &&& !(*final(console))@.worker_active
                &&& (*final(console))@.ports == (*console)@.ports
                &&& (*final(console))@.acked_features == (*console)@.acked_features
            },
        forall|console: &mut Console<I, O, Q>|
            (#[trigger] call_ensures(
                <Console<I, O, Q> as VirtioDevice<Q>>::reset,
                (console,),
                supported,
            )) ==> {
                &&& supported <==> (*console)@.ports.len() > 0
                &&& (*final(console))@.worker is None
                &&& !(*final(console))@.worker_active
                &&& (*final(console))@.ports == (*console)@.ports
            },
        forall|console: &mut Console<I, O, Q>|
            (#[trigger] call_ensures(Console::<I, O, Q>::take_worker, (console,), worker)) ==> {
                &&& worker is Some <==> (*console)@.worker is Some
                &&& worker matches Some(worker) ==> worker@ == (*console)@.worker->0
                &&& (*final(console))@.worker is None
                &&& (*final(console))@.worker_active == (*console)@.worker_active
                &&& (*final(console))@.ports == (*console)@.ports
                &&& (*final(console))@.acked_features == (*console)@.acked_features
            },
{
}

/// A console is a device of type 3, and has the features of a console.
pub proof fn lemma_type_of_the_console<I, O, Q>(
    console: Console<I, O, Q>,
    device_type: u32,
    features: u64,
)
    requires
        call_ensures(Console::<I, O, Q>::device_type, (&console,), device_type),
        call_ensures(
            <Console<I, O, Q> as VirtioDevice<Q>>::avail_features,
            (&console,),
            features,
        ),
    ensures
        device_type == 3,
        features == 0x1_0000_0003,
{
}

/// A console can be made of any ports of which the first is a terminal and each terminal has both an
/// input and an output, as long as they and their queues can be numbered.
pub proof fn lemma_what_makes_a_console<I, O>(descriptions: Seq<PortDescription<I, O>>)
    ensures
        crate::console::device::describes_console(descriptions) <==> {
            &&& descriptions.len() >= 1
            &&& descriptions[0] is Console
            &&& descriptions.len() <= u32::MAX
            &&& 2 + 2 * descriptions.len() <= usize::MAX
            &&& forall|i: int|
                0 <= i < descriptions.len() ==> (
                #[trigger] descriptions[i] matches PortDescription::Console { input, output } ==> (
                input is Some && output is Some))
        },
{
    if crate::console::device::describes_console(descriptions) {
        assert forall|i: int| 0 <= i < descriptions.len() implies (
        #[trigger] descriptions[i] matches PortDescription::Console { input, output } ==> (
        input is Some && output is Some)) by {
            assert(descriptions[i].complete());
        }
    }
}

/// A back-end is made for a console, and gives it out.
pub proof fn lemma_console_behind_a_back_end<I, O, Q>(
    console: Console<I, O, Q>,
    back_end: crate::console::vhost::VhostUserConsole<I, O, Q>,
)
    requires
        call_ensures(
            crate::console::vhost::VhostUserConsole::<I, O, Q>::new,
            (console,),
            back_end,
        ),
    ensures
        crate::vhost_user::backend::VhostUserDeviceImplementer::spec_device(&back_end) == console,
{
}

/// What a worker gives out is what it has. Messages that are added behind its back are added to those
/// that wait, and nothing else of it changes.
pub proof fn lemma_parts_of_a_worker<I, O, Q>(
    worker: MainWorker<I, O, Q>,
    control_rxq: &Q,
    control_txq: &Q,
    ports: &Vec<Port<I, O>>,
    new: ControlRx,
)
    requires
        call_ensures(MainWorker::<I, O, Q>::control_rxq, (&worker,), control_rxq),
        call_ensures(MainWorker::<I, O, Q>::control_txq, (&worker,), control_txq),
        call_ensures(MainWorker::<I, O, Q>::ports, (&worker,), ports),
        call_ensures(ControlRx::new, (), new),
    ensures
        *control_rxq == worker@.control_rxq,
        *control_txq == worker@.control_txq,
        ports@.len() == worker@.ports.len(),
        forall|i: int| 0 <= i < ports@.len() ==> (#[trigger] ports@[i])@ == worker@.ports[i],
        !new.raise_irq,
        new.writing is None,
        forall|worker: &mut MainWorker<I, O, Q>, control: &mut ConsoleControl|
            (#[trigger] call_ensures(MainWorker::<I, O, Q>::control_mut, (worker,), control))
                ==> {
                &&& (*control)@ == (*worker)@.control
                &&& (*final(worker))@.control == (*final(control))@
                &&& same_worker((*worker)@, (*final(worker))@)
            },
{
    assert(crate::console::worker::port_views(ports@).len() == ports@.len());
    assert forall|i: int| 0 <= i < ports@.len() implies (#[trigger] ports@[i])@
        == worker@.ports[i] by {
        assert(crate::console::worker::port_views(ports@)[i] == ports@[i]@);
    }
}

/// The first port has queues 0 and 1, and each other port two from 4 on. There are two queues more than
/// the ports have.
pub proof fn lemma_queues_of_the_ports(
    direction: crate::console::port_queue_mapping::QueueDirection,
    port: usize,
    queue: usize,
    num_ports: usize,
    num: usize,
)
    requires
        call_ensures(
            crate::console::port_queue_mapping::port_id_to_queue_idx,
            (direction, port),
            queue,
        ),
        call_ensures(crate::console::port_queue_mapping::num_queues, (num_ports,), num),
    ensures
        num == 2 + 2 * num_ports,
        port == 0 ==> queue == if direction is Rx {
            0int
        } else {
            1
        },
        port > 0 ==> queue == 2 + 2 * port + if direction is Rx {
            0int
        } else {
            1
        },
        port < num_ports ==> queue < num,
{
}

/// What a port is watched for is what was asked, and a description is complete unless it is one of a
/// terminal without an input or an output.
pub proof fn lemma_events_and_descriptions<I, O>(
    fd: i32,
    events: u32,
    event: crate::console::port_io::PortEvent,
    description: PortDescription<I, O>,
    complete: bool,
    console: bool,
)
    requires
        call_ensures(crate::console::port_io::PortEvent::new, (fd, events), event),
        call_ensures(PortDescription::<I, O>::is_complete, (&description,), complete),
        call_ensures(PortDescription::<I, O>::is_console, (&description,), console),
    ensures
        event.spec_fd() == fd,
        event.spec_events() == events,
        console <==> description is Console,
        complete == match description {
            PortDescription::Console { input, output } => input is Some && output is Some,
            _ => true,
        },
{
}

/// The configuration space of a console is written with its columns, its rows and its ports.
pub proof fn lemma_config_is_written(
    cols: u16,
    rows: u16,
    ports: u32,
    config: crate::console::device::VirtioConsoleConfig,
    bytes: Vec<u8>,
)
    requires
        call_ensures(
            crate::console::device::VirtioConsoleConfig::new,
            (cols, rows, ports),
            config,
        ),
        call_ensures(crate::console::device::VirtioConsoleConfig::to_bytes, (&config,), bytes),
    ensures
        bytes@.len() == 12,
        cols == bytes@[0] + 256 * bytes@[1],
        rows == bytes@[2] + 256 * bytes@[3],
        ports == bytes@[4] + 256 * bytes@[5] + 65536 * bytes@[6] + 16777216 * bytes@[7],
{
    crate::console::laws::lemma_config_layout(cols, rows, ports);
}

/// A read of the configuration space fills a buffer from its start with the bytes from the offset on,
/// and a write is refused.
pub proof fn lemma_config_is_read<I, O, Q>(
    console: Console<I, O, Q>,
    offset: usize,
    result: Result<(), DeviceError>,
    data: &[u8],
    written: Result<(), DeviceError>,
    i: int,
)
    ensures
        forall|data: &mut [u8]|
            (#[trigger] call_ensures(
                <Console<I, O, Q> as VirtioDevice<Q>>::read_config,
                (&console, offset, data),
                result,
            )) && offset + (*data)@.len() <= usize::MAX && 0 <= i < (*data)@.len() ==> {
                let config = console@.config;
                &&& (*final(data))@.len() == (*data)@.len()
                &&& result is Ok <==> offset < config.len()
                &&& result is Ok && offset + i < config.len() ==> (*final(data))@[i]
                    == config[offset + i]
                &&& !(result is Ok && offset + i < config.len()) ==> (*final(data))@[i] == (
                *data)@[i]
            },
        forall|console: &mut Console<I, O, Q>|
            (#[trigger] call_ensures(
                <Console<I, O, Q> as VirtioDevice<Q>>::write_config,
                (console, offset, data),
                written,
            )) ==> {
                &&& written == Err::<(), DeviceError>(DeviceError::ConfigWriteUnsupported)
                &&& (*final(console))@ == (*console)@
            },
{
    assert forall|data: &mut [u8]|
        (#[trigger] call_ensures(
            <Console<I, O, Q> as VirtioDevice<Q>>::read_config,
            (&console, offset, data),
            result,
        )) && offset + (*data)@.len() <= usize::MAX && 0 <= i < (*data)@.len() implies {
        let config = console@.config;
        &&& (*final(data))@.len() == (*data)@.len()
        &&& result is Ok <==> offset < config.len()
        &&& result is Ok && offset + i < config.len() ==> (*final(data))@[i] == config[offset + i]
        &&& !(result is Ok && offset + i < config.len()) ==> (*final(data))@[i] == (*data)@[i]
    } by {
        crate::console::laws::lemma_config_reads(console, offset, (*data)@, i);
    }
}

} // verus!
