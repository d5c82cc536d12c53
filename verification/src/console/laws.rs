//! What holds of a console, whatever the driver and the ports do.

use crate::console::control::{PayloadView, VirtioConsoleControl, VirtioConsoleResize};
use crate::console::device::Console;
use crate::console::port::{PortDescription, PortShutdown, PortState, PortView};
use crate::console::port_io::WriteStep;
use crate::console::port_queue_mapping::QueueDirection;
use crate::console::process_rx::{Filling, PartRead, PortRx, PortRxAction, PortRxEvent};
use crate::console::process_tx::{Emptying, PartWritten, PortTx, PortTxAction, PortTxEvent};
use crate::console::worker::{
    ControlRx, ControlTx, MainWorker, RxAction, RxEvent, TxAction, TxEvent,
    TxFault, WorkerEvent, WorkerStep,
};
use crate::virtio::device::{DeviceError, VirtioDevice};
use crate::virtio::locked_queue::{LockedQueueView, UsedEntry};
use vm_memory::GuestMemoryMmap;
use vstd::prelude::*;

verus! {

/// A worker that is woken up stops if it has to, and otherwise reads the kick, be it that the driver
/// kicked the queue or that there is new input. Being woken up changes nothing.
pub proof fn lemma_woken_input_worker<E>(
    rx: PortRx,
    token: crate::console::process_rx::WorkerToken,
)
    ensures
        ({
            let (then, action) = rx.after(PortRxEvent::<E>::Woken(token));
            &&& then == rx
            &&& token is Stop ==> action is Finish
            &&& token is ProcessQueue ==> action is ReadKick
            &&& token is IO ==> action is ReadKick
        }),
{
}

/// Each thing that the worker for an input does has its reason: an enabled queue is locked, buffers
/// are taken from a locked queue one after another and each is filled part by part, until there is no
/// part, or nothing to be read. At the end of the input the port is closed.
pub proof fn lemma_input_reaches_the_queue<E>(rx: PortRx, event: PortRxEvent<E>)
    ensures
        ({
            let action = rx.after(event).1;
            let part_done = event matches PortRxEvent::PartRead { part, .. } && (part is NoPart
                || part == PartRead::<E>::Read(0));
            &&& action is Finish <==> event == PortRxEvent::<E>::Woken(
                crate::console::process_rx::WorkerToken::Stop,
            )
            &&& action is ReadKick <==> (event matches PortRxEvent::Woken(token) && !(token is Stop))
            &&& action is Lock <==> event == PortRxEvent::<E>::KickRead(true)
            &&& action is Pop <==> (event == PortRxEvent::<E>::Locked(true) || (event is UsedAdded
                && !rx.eof))
            &&& action is Close <==> (event is UsedAdded && rx.eof)
            &&& action is ReadPart <==> ((event matches PortRxEvent::Popped(Some(_))) || (
            event is PartRead && !part_done))
            &&& (action is AddUsed || action is Rewind) <==> part_done
            &&& action is Wait <==> {
                ||| event is Started
                ||| event == PortRxEvent::<E>::KickRead(false)
                ||| event == PortRxEvent::<E>::Locked(false)
                ||| event == PortRxEvent::<E>::Popped(None)
                ||| event is Rewound
            }
        }),
{
}

/// What the worker for an input remembers: the buffer it fills and how much is in it, whether the end
/// of the input was seen, and whether the driver has to be notified of something.
pub proof fn lemma_input_is_remembered<E>(rx: PortRx, event: PortRxEvent<E>)
    requires
        event matches PortRxEvent::PartRead { part, .. } ==> {
            &&& rx.filling is Some
            &&& part matches PartRead::Read(len) ==> rx.filling->0.bytes_read + len <= usize::MAX
        },
    ensures
        ({
            let (then, action) = rx.after(event);
            &&& then.eof <==> rx.eof || (event matches PortRxEvent::PartRead { eof, .. } && eof)
            &&& event matches PortRxEvent::Popped(Some(head)) ==> then.filling == Some(
                Filling { head, bytes_read: 0 },
            )
            &&& event matches PortRxEvent::PartRead { part, .. } ==> {
                let filling = rx.filling->0;
                match part {
                    PartRead::NoPart => then.filling is None,
                    PartRead::Failed(_) => then.filling == rx.filling,
                    PartRead::Read(len) => if len == 0 {
                        then.filling is None
                    } else {
                        &&& then.filling is Some
                        &&& then.filling->0.head == filling.head
                        &&& then.filling->0.bytes_read == filling.bytes_read + len
                        &&& then.signal_used_queue
                    },
                }
            }
            &&& !(event is PartRead) && !(event matches PortRxEvent::Popped(Some(_)))
                ==> then.filling == rx.filling
            &&& action matches PortRxAction::AddUsed { head, len } ==> {
                &&& head == rx.filling->0.head
                &&& rx.filling->0.bytes_read > 0
                &&& rx.filling->0.bytes_read <= u32::MAX ==> len == rx.filling->0.bytes_read
            }
            &&& action is Rewind ==> rx.filling->0.bytes_read == 0
        }),
{
}

/// How often the driver is notified when the worker for an input waits: not at all if nothing was put
/// into a buffer since the last time, and otherwise once, or twice if the queue is used up.
pub proof fn lemma_input_signals<E>(rx: PortRx, event: PortRxEvent<E>)
    requires
        event is Started ==> !rx.signal_used_queue,
    ensures
        rx.after(event).1 matches PortRxAction::Wait { signals } ==> {
            &&& !rx.signal_used_queue ==> signals == 0
            &&& rx.signal_used_queue ==> signals == if event is Popped {
                2int
            } else {
                1
            }
        },
        rx.after(event).0.signal_used_queue <==> {
            let filled = event matches PortRxEvent::PartRead { part, .. } && (
            part matches PartRead::Read(len) && len > 0);
            !(rx.after(event).1 is Wait) && (rx.signal_used_queue || filled)
        },
{
}

/// A worker that is woken up stops if it has to, and otherwise reads the kick, be it that the driver
/// kicked the queue or that the output takes more. Being woken up changes nothing.
pub proof fn lemma_woken_output_worker<E>(
    tx: PortTx,
    token: crate::console::process_tx::WorkerToken,
)
    ensures
        ({
            let (then, action) = tx.after(PortTxEvent::<E>::Woken(token));
            &&& then == tx
            &&& token is Stop ==> action is Finish
            &&& token is ProcessQueue ==> action is ReadKick
            &&& token is IO ==> action is ReadKick
        }),
{
}

/// Each thing that the worker for an output does has its reason: an enabled queue is locked, buffers
/// are taken from a locked queue one after another and each is written part by part, until there is no
/// part, or nothing can be written.
pub proof fn lemma_queue_reaches_the_output<E>(tx: PortTx, event: PortTxEvent<E>)
    ensures
        ({
            let action = tx.after(event).1;
            let part_done = event == PortTxEvent::<E>::PartWritten(PartWritten::NoPart) || event
                == PortTxEvent::<E>::PartWritten(PartWritten::Written(0));
            &&& action is Finish <==> event == PortTxEvent::<E>::Woken(
                crate::console::process_tx::WorkerToken::Stop,
            )
            &&& action is ReadKick <==> (event matches PortTxEvent::Woken(token) && !(token is Stop))
            &&& action is Lock <==> event == PortTxEvent::<E>::KickRead(true)
            &&& action is Pop <==> (event == PortTxEvent::<E>::Locked(true) || event is UsedAdded)
            &&& action is WritePart <==> ((event matches PortTxEvent::Popped(Some(_))) || (
            event is PartWritten && !part_done))
            &&& (action is AddUsed || action is Rewind) <==> part_done
            &&& action is Wait <==> {
                ||| event is Started
                ||| event == PortTxEvent::<E>::KickRead(false)
                ||| event == PortTxEvent::<E>::Locked(false)
                ||| event == PortTxEvent::<E>::Popped(None)
                ||| event is Rewound
            }
        }),
{
}

/// What the worker for an output remembers: the buffer it writes and how much of it was written, and
/// whether the driver has to be notified of something.
pub proof fn lemma_output_is_remembered<E>(tx: PortTx, event: PortTxEvent<E>)
    requires
        event matches PortTxEvent::PartWritten(part) ==> {
            &&& tx.emptying is Some
            &&& part matches PartWritten::Written(len) ==> tx.emptying->0.bytes_written + len
                <= usize::MAX
        },
    ensures
        ({
            let (then, action) = tx.after(event);
            &&& event matches PortTxEvent::Popped(Some(head)) ==> then.emptying == Some(
                Emptying { head, bytes_written: 0 },
            )
            &&& event matches PortTxEvent::PartWritten(part) ==> {
                let emptying = tx.emptying->0;
                match part {
                    PartWritten::NoPart => then.emptying is None,
                    PartWritten::Failed(_) => then == tx,
                    PartWritten::Written(len) => if len == 0 {
                        then.emptying is None
                    } else {
                        &&& then.emptying is Some
                        &&& then.emptying->0.head == emptying.head
                        &&& then.emptying->0.bytes_written == emptying.bytes_written + len
                        &&& then.signal_used_queue
                    },
                }
            }
            &&& !(event is PartWritten) && !(event matches PortTxEvent::Popped(Some(_)))
                ==> then.emptying == tx.emptying
            &&& action matches PortTxAction::AddUsed { head, len } ==> {
                &&& head == tx.emptying->0.head
                &&& tx.emptying->0.bytes_written > 0
                &&& tx.emptying->0.bytes_written <= u32::MAX ==> len == tx.emptying->0.bytes_written
            }
            &&& action is Rewind ==> tx.emptying->0.bytes_written == 0
            &&& action matches PortTxAction::Wait { signal } ==> signal == tx.signal_used_queue
            &&& then.signal_used_queue <==> {
                let emptied = event matches PortTxEvent::PartWritten(part) && (
                part matches PartWritten::Written(len) && len > 0);
                !(action is Wait) && (tx.signal_used_queue || emptied)
            }
        }),
{
}

/// Bytes that start with a message hold that message, and what follows it is left.
pub proof fn lemma_message_with_data(message: VirtioConsoleControl, data: Seq<u8>)
    ensures
        (message.spec_bytes() + data).len() == 8 + data.len(),
        VirtioConsoleControl::of_bytes(message.spec_bytes() + data) == message,
        (message.spec_bytes() + data).skip(8) == data,
{
    crate::console::control::lemma_control_round_trip(message);
    let bytes = message.spec_bytes() + data;
    assert(bytes.subrange(0, 4) =~= message.spec_bytes().subrange(0, 4));
    assert(bytes.subrange(4, 6) =~= message.spec_bytes().subrange(4, 6));
    assert(bytes.subrange(6, 8) =~= message.spec_bytes().subrange(6, 8));
    assert(bytes.skip(8) =~= data);
}

/// Where the parts of a message are: the port in the first four bytes, then the event and the value in
/// two bytes each, all of them with the least significant byte first.
pub proof fn lemma_message_layout(bytes: Seq<u8>)
    requires
        bytes.len() >= 8,
    ensures
        ({
            let message = VirtioConsoleControl::of_bytes(bytes);
            &&& message.id == bytes[0] + 256 * bytes[1] + 65536 * bytes[2] + 16777216 * bytes[3]
            &&& message.event == bytes[4] + 256 * bytes[5]
            &&& message.value == bytes[6] + 256 * bytes[7]
        }),
{
    crate::virtio::le_bytes::lemma_le_value_4(bytes.subrange(0, 4));
    crate::virtio::le_bytes::lemma_le_value_2(bytes.subrange(4, 6));
    crate::virtio::le_bytes::lemma_le_value_2(bytes.subrange(6, 8));
}

/// What the driver reads from the messages of the device: each names its port, the kind of message,
/// and its value. A size follows as rows and then columns, and a name as its bytes.
pub proof fn lemma_messages_of_the_device(
    port: u32,
    open: bool,
    size: VirtioConsoleResize,
    name: Seq<u8>,
)
    ensures
        VirtioConsoleControl::of_bytes(
            crate::console::control::console_port_message(port).spec_bytes(),
        ) == (VirtioConsoleControl { id: port, event: 4, value: 1 }),
        crate::console::control::console_port_message(port).spec_bytes().len() == 8,
        VirtioConsoleControl::of_bytes(
            crate::console::control::port_add_message(port).spec_bytes(),
        ) == (VirtioConsoleControl { id: port, event: 1, value: 0 }),
        crate::console::control::port_add_message(port).spec_bytes().len() == 8,
        VirtioConsoleControl::of_bytes(
            crate::console::control::port_open_message(port, open).spec_bytes(),
        ) == (VirtioConsoleControl {
            id: port,
            event: 6,
            value: if open {
                1
            } else {
                0
            },
        }),
        crate::console::control::port_open_message(port, open).spec_bytes().len() == 8,
        ({
            let bytes = crate::console::control::resize_message(port, size).spec_bytes();
            &&& VirtioConsoleControl::of_bytes(bytes) == (VirtioConsoleControl {
                id: port,
                event: 5,
                value: 0,
            })
            &&& bytes.len() == 12
            &&& size.rows == bytes[8] + 256 * bytes[9]
            &&& size.cols == bytes[10] + 256 * bytes[11]
        }),
        ({
            let bytes = crate::console::control::port_name_message(port, name).spec_bytes();
            &&& VirtioConsoleControl::of_bytes(bytes) == (VirtioConsoleControl {
                id: port,
                event: 7,
                value: 1,
            })
            &&& bytes.skip(8) == name
        }),
{
    crate::console::control::lemma_control_round_trip(
        VirtioConsoleControl { id: port, event: 4, value: 1 },
    );
    crate::console::control::lemma_control_round_trip(
        VirtioConsoleControl { id: port, event: 1, value: 0 },
    );
    crate::console::control::lemma_control_round_trip(
        VirtioConsoleControl {
            id: port,
            event: 6,
            value: if open {
                1
            } else {
                0
            },
        },
    );
    lemma_message_with_data(
        VirtioConsoleControl { id: port, event: 5, value: 0 },
        size.spec_bytes(),
    );
    lemma_message_with_data(VirtioConsoleControl { id: port, event: 7, value: 1 }, name);
    let rows = crate::virtio::le_bytes::le_bytes(size.rows as nat, 2);
    let cols = crate::virtio::le_bytes::le_bytes(size.cols as nat, 2);
    crate::virtio::le_bytes::lemma_le_bytes_len(size.rows as nat, 2);
    crate::virtio::le_bytes::lemma_le_bytes_len(size.cols as nat, 2);
    assert(vstd::arithmetic::power::pow(256, 2) == 0x1_0000) by {
        reveal_with_fuel(vstd::arithmetic::power::pow, 3);
    }
    crate::virtio::le_bytes::lemma_le_round_trip(size.rows as nat, 2);
    crate::virtio::le_bytes::lemma_le_round_trip(size.cols as nat, 2);
    crate::virtio::le_bytes::lemma_le_value_2(rows);
    crate::virtio::le_bytes::lemma_le_value_2(cols);
    let bytes = crate::console::control::resize_message(port, size).spec_bytes();
    assert(bytes.skip(8) =~= rows + cols);
    assert(bytes[8] == bytes.skip(8)[0] && bytes[9] == bytes.skip(8)[1]);
    assert(bytes[10] == bytes.skip(8)[2] && bytes[11] == bytes.skip(8)[3]);
}

/// The message that the driver reads from what it is sent.
pub open spec fn told(payload: PayloadView) -> VirtioConsoleControl {
    VirtioConsoleControl::of_bytes(payload.spec_bytes())
}

/// A driver that is ready to use a port is told that the port is open, and nothing of other ports. A
/// terminal is marked as one before and told its size afterwards, and no other port is. A port with a
/// name is named once, at the end, with all of its name, whatever the port is for and whatever inputs
/// and outputs it has. A port without a name is not named.
pub proof fn lemma_ready_port_is_opened_and_named<I, O>(
    ports: Seq<PortView<I, O>>,
    message: VirtioConsoleControl,
    i: int,
)
    requires
        message.event == 3,
        message.value == 1,
        message.id < ports.len(),
        0 <= i < crate::console::worker::replies(ports, message).len(),
    ensures
        ({
            let port = ports[message.id as int];
            let replies = crate::console::worker::replies(ports, message);
            let opening = if port.represents_console {
                3int
            } else {
                1
            };
            let named = port.name.len() > 0;
            &&& replies.len() == opening + (if named {
                1int
            } else {
                0
            })
            &&& told(replies[i]).id == message.id
            &&& told(replies[i]).event == 7 <==> named && i == replies.len() - 1
            &&& named ==> replies.last().spec_bytes().skip(8) == vstd::utf8::encode_utf8(port.name)
            &&& told(replies[i]).event == 6 <==> i == if port.represents_console {
                1int
            } else {
                0
            }
            &&& told(replies[i]).event == 6 ==> told(replies[i]).value == 1
            &&& told(replies[i]).event == 4 <==> port.represents_console && i == 0
            &&& told(replies[i]).event == 5 <==> port.represents_console && i == 2
            &&& told(replies[i]).event == 5 ==> {
                let bytes = replies[i].spec_bytes();
                bytes[8] + 256 * bytes[9] == 24 && bytes[10] + 256 * bytes[11] == 80
            }
        }),
{
    let port = ports[message.id as int];
    lemma_messages_of_the_device(
        message.id,
        true,
        VirtioConsoleResize { cols: 80, rows: 24 },
        vstd::utf8::encode_utf8(port.name),
    );
}

/// A driver that has found the device is told of every port, in their order. Any message but that the
/// driver has found the device, or is ready to use a port, has no reply.
pub proof fn lemma_found_device_tells_of_its_ports<I, O>(
    ports: Seq<PortView<I, O>>,
    message: VirtioConsoleControl,
    i: int,
)
    requires
        ports.len() <= u32::MAX,
    ensures
        message.event == 0 ==> {
            let replies = crate::console::worker::replies(ports, message);
            &&& replies.len() == ports.len()
            &&& 0 <= i < ports.len() ==> told(replies[i]) == (VirtioConsoleControl {
                id: i as u32,
                event: 1,
                value: 0,
            })
        },
        message.event != 0 && !(message.event == 3 && message.value == 1)
            ==> crate::console::worker::replies(ports, message).len() == 0,
{
    if 0 <= i < ports.len() {
        lemma_messages_of_the_device(
            i as u32,
            true,
            VirtioConsoleResize { cols: 80, rows: 24 },
            seq![],
        );
    }
}

/// Only a driver that is ready to use a port that does not exist is refused.
pub proof fn lemma_refused_messages<I, O, Q>(
    worker: MainWorker<I, O, Q>,
    message: VirtioConsoleControl,
    accepted: bool,
)
    requires
        call_ensures(MainWorker::<I, O, Q>::accepts, (&worker, message), accepted),
    ensures
        !accepted <==> message.event == 3 && message.value == 1 && message.id
            >= worker@.ports.len(),
        accepted == crate::console::worker::names_port(worker@.ports, message),
{
}

/// Each step of sending messages has its reason. The message that waits longest is written, whole,
/// to the buffer that was taken, and then waits no more. A buffer is given back with the length of the
/// message if all of it was written, and put back if there is no message.
pub proof fn lemma_steps_of_sending<E>(
    before: ControlRx,
    waiting: Seq<PayloadView>,
    event: RxEvent<E>,
    action: RxAction,
    after: ControlRx,
    still_waiting: Seq<PayloadView>,
)
    requires
        crate::console::worker::rx_step(before, waiting, event, action, after, still_waiting),
        event is Written ==> before.writing is Some,
    ensures
        ({
            let (to, message_len) = before.writing->0;
            let whole = event matches RxEvent::Written(Ok(len)) && len == message_len;
            &&& action is ReadKick <==> event is Started
            &&& action is ResetAndLock <==> event == RxEvent::<E>::KickRead(true)
            &&& action is Pop <==> {
                ||| event == RxEvent::<E>::Locked(true)
                ||| event is UsedAdded
                ||| event is Written && !whole
            }
            &&& action is Write <==> ((event matches RxEvent::Popped(Some(_))) && waiting.len() > 0)
            &&& action is Rewind <==> ((event matches RxEvent::Popped(Some(_))) && waiting.len()
                == 0)
            &&& action is AddUsed <==> whole
            &&& action is Finish <==> {
                ||| event == RxEvent::<E>::KickRead(false)
                ||| event == RxEvent::<E>::Locked(false)
                ||| event == RxEvent::<E>::Popped(None)
                ||| event is Rewound
            }
            &&& action matches RxAction::Write { head, message } ==> {
                &&& event == RxEvent::<E>::Popped(Some(head))
                &&& message@ == waiting[0].spec_bytes()
                &&& still_waiting == waiting.skip(1)
                &&& after.writing matches Some((written_to, _)) && written_to == head
            }
            &&& !(action is Write) ==> still_waiting == waiting
            &&& action matches RxAction::AddUsed { head, len } ==> {
                &&& head == to
                &&& message_len <= u32::MAX ==> len == message_len
                &&& after.raise_irq
            }
            &&& !(action is AddUsed) ==> after.raise_irq == before.raise_irq
            &&& event is Written ==> after.writing is None
            &&& action matches RxAction::Finish { signal } ==> signal == (before.raise_irq && (
            event is Popped || event is Rewound))
        }),
{
}

/// Each step of receiving messages has its reason. A whole message is replied to behind what waits
/// already and acknowledged, and a buffer without one is not. Either way the driver is notified in
/// the end.
pub proof fn lemma_steps_of_receiving<I, O>(
    ports: Seq<PortView<I, O>>,
    before: ControlTx,
    waiting: Seq<PayloadView>,
    event: TxEvent,
    action: TxAction,
    after: ControlTx,
    then_waiting: Seq<PayloadView>,
)
    requires
        crate::console::worker::tx_step(
            ports,
            before,
            waiting,
            event,
            action,
            after,
            then_waiting,
        ),
    ensures
        ({
            let whole = event matches TxEvent::Popped(Some(bytes)) && bytes@.len() >= 8;
            &&& action is ReadKick <==> event is Started
            &&& action is Lock <==> event == TxEvent::KickRead(true)
            &&& action is Pop <==> {
                ||| event == TxEvent::Locked(true)
                ||| event is UsedAdded
                ||| event matches TxEvent::Popped(Some(_)) && !whole
            }
            &&& action is AddUsed <==> whole
            &&& action is AddUsed ==> action == (TxAction::AddUsed { head: 0, len: 8 })
            &&& action is Finish <==> {
                ||| event == TxEvent::KickRead(false)
                ||| event == TxEvent::Locked(false)
                ||| event == TxEvent::Popped(None)
            }
            &&& action matches TxAction::Finish { signal } ==> signal == (before.raise_irq
                && event is Popped)
            &&& after.raise_irq == (before.raise_irq || (event matches TxEvent::Popped(Some(_))))
            &&& !whole ==> then_waiting == waiting
            &&& whole ==> {
                let message = VirtioConsoleControl::of_bytes(event->Popped_0->0@);
                then_waiting == waiting + crate::console::worker::replies(ports, message)
            }
        }),
{
}

/// A worker is told under one token of both buffers for messages and new messages, under another of
/// messages of the driver, and under a third that it has to stop, and then does what it was told.
pub proof fn lemma_worker_does_what_it_is_told<I, O, Q>(
    event: WorkerEvent,
    token: crate::console::worker::WorkerToken,
    step: WorkerStep,
)
    requires
        call_ensures(MainWorker::<I, O, Q>::watch, (event,), token),
        call_ensures(MainWorker::<I, O, Q>::run, (token,), step),
    ensures
        step is ProcessRx <==> event is ControlRxKick || event is MessageAdded,
        step is ProcessTx <==> event is ControlTxKick,
        step is Quit <==> event is Stop,
{
}

/// As much of a message is written as there is room for, from its first byte on.
pub proof fn lemma_bytes_that_fit(message: PayloadView, room: usize)
    ensures
        ({
            let fitting = crate::console::worker::fitting_bytes(message, room);
            let all = message.spec_bytes();
            &&& fitting.len() <= room
            &&& fitting.len() == all.len() || fitting.len() == room
            &&& fitting.len() <= all.len()
            &&& fitting == all.take(fitting.len() as int)
            &&& all.len() <= room ==> fitting == all
        }),
{
    let all = message.spec_bytes();
    assert(all.take(all.len() as int) =~= all);
}

/// A message that was written whole is given back to the driver in the buffer it was written to, with
/// its length, as far as the queue can give it back, and then the driver has to be notified. One that
/// was not written whole is not given back.
pub proof fn lemma_written_messages_are_given_back(
    mem: GuestMemoryMmap<()>,
    queue: LockedQueueView,
    messages: Seq<PayloadView>,
    heads: Seq<u16>,
    rooms: Seq<usize>,
    head: u16,
    room: usize,
)
    requires
        heads.len() == rooms.len() < messages.len(),
    ensures
        ({
            let (before, complete) = crate::console::worker::messages_written(
                mem,
                queue,
                messages,
                heads,
                rooms,
            );
            let (after, then_complete) = crate::console::worker::messages_written(
                mem,
                queue,
                messages,
                heads.push(head),
                rooms.push(room),
            );
            let len = messages[heads.len() as int].spec_bytes().len();
            let given_back = before.record.given_back;
            &&& after.record.taken == before.record.taken.push(head)
            &&& after.record.written.len() == before.record.written.len() + 1
            &&& after.record.written.last().head == head
            &&& after.record.written.last().room == room
            &&& len > room ==> after.record.given_back == given_back && then_complete == complete
            &&& len <= room ==> then_complete && (after.record.given_back == given_back
                || after.record.given_back == given_back.push(UsedEntry { head, len: len as u32 }))
            &&& len <= room && crate::virtio::guest_queue::can_add_used(before.fields, mem, head)
                ==> after.record.given_back == given_back.push(UsedEntry { head, len: len as u32 })
        }),
{
    assert(heads.push(head).drop_last() =~= heads);
    assert(rooms.push(room).drop_last() =~= rooms);
}

/// Sending goes on until no message or no buffer is left: it ends with messages that wait only if the
/// queue had no further buffer. As many messages are gone as buffers were taken.
pub proof fn lemma_sending_goes_on(
    mem: GuestMemoryMmap<()>,
    before: ControlRx,
    waiting: Seq<PayloadView>,
    queue: LockedQueueView,
    failed: bool,
    after: ControlRx,
    still_waiting: Seq<PayloadView>,
    then_queue: LockedQueueView,
    heads: Seq<u16>,
    rooms: Seq<usize>,
)
    requires
        crate::console::worker::sending_ended(
            mem,
            before,
            waiting,
            queue,
            failed,
            after,
            still_waiting,
            then_queue,
            heads,
            rooms,
        ),
    ensures
        !failed && still_waiting.len() > 0 ==> then_queue.record.misses == queue.record.misses + 1,
        then_queue.record.taken == queue.record.taken + heads,
        heads.len() <= waiting.len(),
        still_waiting == waiting.skip(heads.len() as int),
        failed ==> heads.len() > 0,
{
    let written = if failed {
        heads.drop_last()
    } else {
        heads
    };
    crate::console::worker::lemma_messages_reach_the_driver(mem, queue, waiting, written, rooms);
    lemma_no_miss_while_writing(mem, queue, waiting, written, rooms);
    if failed {
        assert((queue.record.taken + heads.drop_last()).push(heads.last()) =~= queue.record.taken
            + heads);
    }
}

proof fn lemma_no_miss_while_writing(
    mem: GuestMemoryMmap<()>,
    queue: LockedQueueView,
    messages: Seq<PayloadView>,
    heads: Seq<u16>,
    rooms: Seq<usize>,
)
    ensures
        crate::console::worker::messages_written(
            mem,
            queue,
            messages,
            heads,
            rooms,
        ).0.record.misses == queue.record.misses,
    decreases heads.len(),
{
    if heads.len() > 0 {
        lemma_no_miss_while_writing(mem, queue, messages, heads.drop_last(), rooms.drop_last());
    }
}

/// A buffer of the driver is read once. The message in it is replied to behind what waits, unless it is
/// about a port that does not exist, which is told and answered with nothing. A buffer without a whole
/// message is answered with nothing, too.
pub proof fn lemma_read_buffer_is_answered<I, O>(
    mem: GuestMemoryMmap<()>,
    ports: Seq<PortView<I, O>>,
    waiting: Seq<PayloadView>,
    queue: LockedQueueView,
    before: ControlTx,
    result: Result<TxAction, TxFault>,
    after: ControlTx,
    then_waiting: Seq<PayloadView>,
    then_queue: LockedQueueView,
    head: u16,
    bytes: Option<Seq<u8>>,
)
    requires
        crate::console::worker::buffer_read(
            mem,
            ports,
            waiting,
            queue,
            before,
            result,
            after,
            then_waiting,
            then_queue,
            head,
            bytes,
        ),
    ensures
        then_queue.record.read.len() == queue.record.read.len() + 1,
        then_queue.record.read.last().head == head,
        then_queue.record.read.last().bytes == bytes,
        then_queue.record.taken == queue.record.taken,
        then_queue.record.written == queue.record.written,
        bytes is None ==> result == Ok::<TxAction, TxFault>(TxAction::Pop) && then_waiting
            == waiting && then_queue.record.given_back == queue.record.given_back
            && after.raise_irq,
        bytes matches Some(bytes) ==> {
            let message = VirtioConsoleControl::of_bytes(bytes);
            let unknown = message.event == 3 && message.value == 1 && message.id >= ports.len();
            if unknown {
                &&& result == Err::<TxAction, TxFault>(TxFault::UnknownPort(message.id))
                &&& then_waiting == waiting
                &&& then_queue.record.given_back == queue.record.given_back
                &&& after == before
            } else {
                &&& result == Ok::<TxAction, TxFault>(TxAction::Pop)
                &&& then_waiting == waiting + crate::console::worker::replies(ports, message)
                &&& after.raise_irq
                &&& crate::virtio::guest_queue::can_add_used(queue.fields, mem, 0)
                    ==> then_queue.record.given_back == queue.record.given_back.push(
                    UsedEntry { head: 0, len: 8 },
                )
            }
        },
{
}

/// A port is made as it is described: a terminal is the only port that is marked as one and has no
/// name, a pipe has its name, and each has exactly the input and the output it was given. It is not
/// started.
pub proof fn lemma_port_is_made_as_described<I, O>(
    port_id: u32,
    description: PortDescription<I, O>,
)
    ensures
        ({
            let port = PortView::described(port_id, description);
            &&& port.port_id == port_id
            &&& port.state == PortState::Inactive
            &&& port.represents_console <==> description is Console
            &&& description matches PortDescription::Console { input, output } ==> port.name.len()
                == 0 && port.input == input && port.output == output
            &&& description matches PortDescription::InputPipe { name, input } ==> port.name
                == name@ && port.input == Some(input) && port.output is None
            &&& description matches PortDescription::OutputPipe { name, output } ==> port.name
                == name@ && port.input is None && port.output == Some(output)
        }),
{
}

/// A port that is started runs a worker for its input exactly if it has one, on the queue for that
/// direction, and one for its output exactly if it has one. Those that ran before are stopped first,
/// and nothing else of the port changes.
pub proof fn lemma_started_port_has_its_workers<I, O, Q>(
    port: PortView<I, O>,
    rx_queue: Q,
    tx_queue: Q,
)
    ensures
        ({
            let steps = port.start_steps(rx_queue, tx_queue);
            let after = port.started();
            &&& steps.rx == if port.input is Some {
                Some(rx_queue)
            } else {
                None
            }
            &&& steps.tx == if port.output is Some {
                Some(tx_queue)
            } else {
                None
            }
            &&& port.state is Inactive ==> steps.shutdown == (PortShutdown {
                signal: false,
                tx: false,
                rx: false,
            })
            &&& port.state matches PortState::Active { rx, tx } ==> steps.shutdown == (
            PortShutdown { signal: true, tx, rx })
            &&& after.state == (PortState::Active {
                rx: port.input is Some,
                tx: port.output is Some,
            })
            &&& after.port_id == port.port_id
            &&& after.name == port.name
            &&& after.represents_console == port.represents_console
            &&& after.input == port.input
            &&& after.output == port.output
        }),
{
}

/// A port that is shut down stops the workers that run, and only if it was started. It keeps its name
/// and what it reads from and writes to.
pub proof fn lemma_shut_down_port<I, O>(port: PortView<I, O>)
    ensures
        port.shutdown_steps().signal <==> port.state is Active,
        port.state matches PortState::Active { rx, tx } ==> port.shutdown_steps().rx == rx
            && port.shutdown_steps().tx == tx,
        port.state is Inactive ==> port.shut_down() == port,
        port.state is Active ==> port.shut_down().state == (PortState::Active {
            rx: false,
            tx: false,
        }),
        port.shut_down().port_id == port.port_id,
        port.shut_down().name == port.name,
        port.shut_down().represents_console == port.represents_console,
        port.shut_down().input == port.input,
        port.shut_down().output == port.output,
{
}

/// Queues 0 and 1 are those of the first port, 2 and 3 those for control messages, and from 4 on each
/// port has two, the first of them for what the driver receives.
pub proof fn lemma_numbers_of_queues(port: int)
    requires
        port >= 1,
    ensures
        crate::console::port_queue_mapping::queue_of_port(QueueDirection::Rx, 0) == 0,
        crate::console::port_queue_mapping::queue_of_port(QueueDirection::Tx, 0) == 1,
        crate::console::port_queue_mapping::CONTROL_RXQ_INDEX == 2,
        crate::console::port_queue_mapping::CONTROL_TXQ_INDEX == 3,
        crate::console::port_queue_mapping::queue_of_port(QueueDirection::Rx, port) == 4 + 2 * (port
            - 1),
        crate::console::port_queue_mapping::queue_of_port(QueueDirection::Tx, port) == 5 + 2 * (port
            - 1),
        crate::console::port_queue_mapping::queues_for_ports(port) == 2 * port + 2,
{
}

/// A console that is activated hands all of its ports to a worker, in their order, and starts each of
/// them with the queues of its number. The queues for control messages go to the worker, and no message
/// waits yet. The configuration space and the features stay as they were.
pub proof fn lemma_activated_console_starts_its_ports<I, O, Q>(
    before: Console<I, O, Q>,
    queues: Map<usize, Q>,
    after: Console<I, O, Q>,
    result: Result<(), DeviceError>,
    i: int,
)
    requires
        <Console<I, O, Q> as VirtioDevice<Q>>::activated(before, queues, after, result),
        0 <= i < before@.ports.len(),
    ensures
        result is Ok,
        after@.worker is Some,
        after@.worker_active,
        after@.ports.len() == 0,
        after@.config == before@.config,
        after@.queues == before@.queues,
        after@.acked_features == before@.acked_features,
        ({
            let worker = after@.worker->0;
            let port = before@.ports[i];
            let rx = if i == 0 {
                0int
            } else {
                2 + 2 * i
            };
            &&& worker.control_rxq == queues[2]
            &&& worker.control_txq == queues[3]
            &&& worker.control.len() == 0
            &&& worker.ports.len() == before@.ports.len()
            &&& worker.ports[i].name == port.name
            &&& worker.ports[i].port_id == port.port_id
            &&& worker.ports[i].represents_console == port.represents_console
            &&& worker.ports[i].input == port.input
            &&& worker.ports[i].output == port.output
            &&& worker.ports[i].state == (PortState::Active {
                rx: port.input is Some,
                tx: port.output is Some,
            })
            &&& worker.starts.len() == before@.ports.len()
            &&& port.input is Some ==> worker.starts[i].rx == Some(queues[rx as usize])
            &&& port.input is None ==> worker.starts[i].rx is None
            &&& port.output is Some ==> worker.starts[i].tx == Some(queues[(rx + 1) as usize])
            &&& port.output is None ==> worker.starts[i].tx is None
        }),
{
}

/// Of the queues that a console is given those for control messages and those of its ports are used,
/// and the others are left.
pub proof fn lemma_queues_that_are_left<Q>(queues: Map<usize, Q>, num_ports: int, queue: usize)
    requires
        num_ports >= 1,
        2 + 2 * num_ports <= usize::MAX,
    ensures
        ({
            let left = crate::console::worker::without_port_queues(queues, num_ports);
            &&& left.dom().contains(queue) <==> queues.dom().contains(queue) && queue >= 2 + 2
                * num_ports
            &&& left.dom().contains(queue) ==> left[queue] == queues[queue]
        }),
    decreases num_ports,
{
    reveal_with_fuel(crate::console::worker::without_port_queues, 2);
    if num_ports > 1 {
        lemma_queues_that_are_left(queues, num_ports - 1, queue);
    }
}

/// A console cannot be activated without ports, nor without all the queues that they need.
pub proof fn lemma_what_an_activation_needs<I, O, Q>(
    console: Console<I, O, Q>,
    queues: Map<usize, Q>,
)
    requires
        2 + 2 * console@.ports.len() <= usize::MAX,
    ensures
        <Console<I, O, Q> as VirtioDevice<Q>>::can_activate(&console, queues) <==> {
            &&& console@.ports.len() > 0
            &&& forall|queue: usize|
                queue < 2 + 2 * console@.ports.len() ==> #[trigger] queues.dom().contains(queue)
        },
{
    if console@.ports.len() > 0 && forall|queue: usize|
        queue < 2 + 2 * console@.ports.len() ==> #[trigger] queues.dom().contains(queue) {
        assert(queues.dom().contains(2usize));
        assert(queues.dom().contains(3usize));
    }
}

/// The configuration space has the columns and the rows of the terminal in two bytes each, then the
/// number of ports and what was written in an emergency in four, least significant byte first.
pub proof fn lemma_config_layout(cols: u16, rows: u16, ports: u32)
    ensures
        ({
            let config = crate::console::device::config_bytes(cols, rows, ports);
            &&& config.len() == 12
            &&& cols == config[0] + 256 * config[1]
            &&& rows == config[2] + 256 * config[3]
            &&& ports == config[4] + 256 * config[5] + 65536 * config[6] + 16777216 * config[7]
            &&& config[8] == 0 && config[9] == 0 && config[10] == 0 && config[11] == 0
        }),
{
    let config = crate::console::device::config_bytes(cols, rows, ports);
    let first = crate::virtio::le_bytes::le_bytes(cols as nat, 2);
    let second = crate::virtio::le_bytes::le_bytes(rows as nat, 2);
    let third = crate::virtio::le_bytes::le_bytes(ports as nat, 4);
    let fourth = crate::virtio::le_bytes::le_bytes(0, 4);
    crate::virtio::le_bytes::lemma_le_bytes_len(cols as nat, 2);
    crate::virtio::le_bytes::lemma_le_bytes_len(rows as nat, 2);
    crate::virtio::le_bytes::lemma_le_bytes_len(ports as nat, 4);
    crate::virtio::le_bytes::lemma_le_bytes_len(0, 4);
    assert(vstd::arithmetic::power::pow(256, 2) == 0x1_0000) by {
        reveal_with_fuel(vstd::arithmetic::power::pow, 3);
    }
    assert(vstd::arithmetic::power::pow(256, 4) == 0x1_0000_0000) by {
        reveal_with_fuel(vstd::arithmetic::power::pow, 5);
    }
    crate::virtio::le_bytes::lemma_le_round_trip(cols as nat, 2);
    crate::virtio::le_bytes::lemma_le_round_trip(rows as nat, 2);
    crate::virtio::le_bytes::lemma_le_round_trip(ports as nat, 4);
    crate::virtio::le_bytes::lemma_le_value_2(first);
    crate::virtio::le_bytes::lemma_le_value_2(second);
    crate::virtio::le_bytes::lemma_le_value_4(third);
    reveal_with_fuel(crate::virtio::le_bytes::le_bytes, 5);
    assert(config[0] == first[0] && config[1] == first[1]);
    assert(config[2] == second[0] && config[3] == second[1]);
    assert(config[4] == third[0] && config[5] == third[1]);
    assert(config[6] == third[2] && config[7] == third[3]);
    assert(config[8] == fourth[0] && config[9] == fourth[1]);
    assert(config[10] == fourth[2] && config[11] == fourth[3]);
}

/// A read of the configuration space fills a buffer from its start with the bytes from the offset on,
/// as far as there are any, and leaves the rest of the buffer. It is refused from the end on.
pub proof fn lemma_config_reads<I, O, Q>(
    console: Console<I, O, Q>,
    offset: usize,
    data: Seq<u8>,
    i: int,
)
    requires
        offset + data.len() <= usize::MAX,
        0 <= i < data.len(),
    ensures
        <Console<I, O, Q> as VirtioDevice<Q>>::can_read_config(&console, offset, data.len()),
        ({
            let config = console@.config;
            let (read, result) = <Console<I, O, Q> as VirtioDevice<Q>>::config_read(
                &console,
                offset,
                data,
            );
            &&& read.len() == data.len()
            &&& result is Ok <==> offset < config.len()
            &&& result is Err ==> read == data && result == Err::<(), DeviceError>(
                DeviceError::InvalidOffset,
            )
            &&& result is Ok && offset + i < config.len() ==> read[i] == config[offset + i]
            &&& result is Ok && offset + i >= config.len() ==> read[i] == data[i]
        }),
{
}

/// A new console has a terminal of 80 columns and 24 rows, its ports in their order with their
/// numbers, two queues for each port and two for control messages, and no worker.
pub proof fn lemma_new_console<I, O, Q>(
    descriptions: Vec<PortDescription<I, O>>,
    console: Console<I, O, Q>,
    i: int,
)
    requires
        call_ensures(Console::<I, O, Q>::new, (descriptions,), console),
        crate::console::device::describes_console(descriptions@),
        0 <= i < descriptions@.len(),
    ensures
        console@.ports.len() == descriptions@.len(),
        console@.ports[i].port_id == i,
        console@.ports[i] == PortView::described(i as u32, descriptions@[i]),
        console@.queues.len() == 2 + 2 * descriptions@.len(),
        forall|queue: int|
            0 <= queue < console@.queues.len() ==> (
            #[trigger] console@.queues[queue]).spec_max_size() == 256,
        console@.config.len() == 12,
        console@.config[0] + 256 * console@.config[1] == 80,
        console@.config[2] + 256 * console@.config[3] == 24,
        console@.config[4] + 256 * console@.config[5] + 65536 * console@.config[6] + 16777216
            * console@.config[7] == descriptions@.len(),
        console@.worker is None,
        !console@.worker_active,
        console@.acked_features == 0,
{
    lemma_config_layout(80, 24, descriptions@.len() as u32);
}

/// A driver that acknowledges features gets exactly those of them that the device offers: the size of
/// the terminal, several ports, and the version of virtio. Nothing else of the device changes.
pub proof fn lemma_acknowledged_features<I, O, Q>(
    before: Console<I, O, Q>,
    features: u64,
    after: Console<I, O, Q>,
)
    requires
        <Console<I, O, Q> as VirtioDevice<Q>>::features_acked(before, features, after),
    ensures
        after@.acked_features == 0x1_0000_0003 & features,
        after@.ports == before@.ports,
        after@.queues == before@.queues,
        after@.worker == before@.worker,
        after@.worker_active == before@.worker_active,
        after@.config == before@.config,
{
}

/// The configuration space cannot be written, and stopping a console takes only its worker from it.
pub proof fn lemma_unchanged_consoles<I, O, Q>(
    before: Console<I, O, Q>,
    offset: usize,
    data: Seq<u8>,
    after: Console<I, O, Q>,
    result: Result<(), DeviceError>,
)
    ensures
        <Console<I, O, Q> as VirtioDevice<Q>>::config_written(
            before,
            offset,
            data,
            after,
            result,
        ) ==> after@ == before@ && result is Err,
        <Console<I, O, Q> as VirtioDevice<Q>>::stopped(before, after) ==> {
            &&& after@.worker is None
            &&& !after@.worker_active
            &&& after@.ports == before@.ports
            &&& after@.queues == before@.queues
            &&& after@.acked_features == before@.acked_features
            &&& after@.config == before@.config
        },
{
}

/// The back-end offers several queues, the configuration space and replies, and no other protocol
/// features, and takes no notice of a display.
pub proof fn lemma_offered_protocol_features<I, O, Q>(
    before: Console<I, O, Q>,
    after: Console<I, O, Q>,
)
    ensures
        crate::console::vhost::PROTOCOL_FEATURES == 0x1u64 | 0x8u64 | 0x200u64,
        <crate::console::vhost::VhostUserConsole<
            I,
            O,
            Q,
        > as crate::vhost_user::backend::VhostUserDeviceImplementer>::display_connected(
            before,
            (),
            after,
        ) ==> after == before,
{
    assert(0x1u64 | 0x8u64 | 0x200u64 == 0x209u64) by (bit_vector);
}

/// What a read of the system returned: as many bytes of the buffer changed as were read. If the read
/// failed nothing was read, and the buffer may have changed all the same, unless there was just nothing
/// to be read yet.
pub proof fn lemma_bytes_that_changed(
    bytes_read: isize,
    len: usize,
    would_block: bool,
    outcome: (Option<usize>, usize),
)
    requires
        bytes_read <= len,
        call_ensures(
            crate::console::port_io::read_volatile,
            (bytes_read, len, would_block),
            outcome,
        ),
    ensures
        outcome.0 is Some <==> bytes_read >= 0,
        outcome.0 matches Some(read) ==> read == bytes_read && outcome.1 == read,
        bytes_read < 0 && would_block ==> outcome.1 == 0,
        bytes_read < 0 && !would_block ==> outcome.1 == len,
        outcome.1 <= len,
{
}

/// A write is repeated only if the output takes nothing at the moment. Otherwise it is over, with what
/// came of it.
pub proof fn lemma_repeated_writes<E>(
    written: Result<usize, E>,
    would_block: bool,
    step: WriteStep<E>,
)
    requires
        call_ensures(
            crate::console::port_io::write_desc_to_output::<E>,
            (written, would_block),
            step,
        ),
    ensures
        step is WaitUntilWritable <==> written is Err && would_block,
        !(step is WaitUntilWritable) ==> step == WriteStep::Done(written),
{
}

} // verus!
