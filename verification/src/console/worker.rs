//! The worker that exchanges control messages with the driver of a console.
//!
//! Buffers of the driver lie in the memory of the guest. The worker says what to do with them, one
//! step at a time, and is told what came of it.

use crate::console::control::{
    ConsoleControl, PayloadView, VirtioConsoleControl, VirtioConsoleResize, CONTROL_SIZE,
    VIRTIO_CONSOLE_DEVICE_READY, VIRTIO_CONSOLE_PORT_READY,
};
use crate::events::token::EventToken;
use crate::console::port::{Port, PortStart, PortView};
use crate::console::port_queue_mapping::{
    port_id_to_queue_idx, QueueDirection, CONTROL_RXQ_INDEX, CONTROL_TXQ_INDEX,
};
use crate::virtio::guest_queue::chain_head_index;
use crate::virtio::locked_queue::{
    BufferWrite, LockedQueue, LockedQueueView, ReadableBuffer, WritableBuffer,
};
use std::collections::BTreeMap;
use vm_memory::GuestMemoryMmap;
use vstd::arithmetic::power2::*;
use vstd::prelude::*;

verus! {

/// What wakes up the worker.
#[derive(Debug, Copy, Clone, PartialEq, Eq, Structural)]
pub enum WorkerToken {
    /// There are messages for the driver, or buffers for them.
    ControlRxq,
    /// There are messages of the driver.
    ControlTxq,
    /// The worker has to stop.
    Quit,
}

impl EventToken for WorkerToken {
    const USED_BITS: u32 = 2;

    open spec fn is_token(&self) -> bool {
        true
    }

    open spec fn raw_token(&self) -> u64 {
        match self {
            WorkerToken::ControlRxq => 0,
            WorkerToken::ControlTxq => 1,
            WorkerToken::Quit => 2,
        }
    }

    open spec fn is_raw_token(data: u64) -> bool {
        data % 4 < 3
    }

    open spec fn token_of(data: u64) -> Self {
        if data % 4 == 0 {
            WorkerToken::ControlRxq
        } else if data % 4 == 1 {
            WorkerToken::ControlTxq
        } else {
            WorkerToken::Quit
        }
    }

    proof fn lemma_round_trip(&self) {
        lemma2_to64();
    }

    fn as_raw_token(&self) -> (raw: u64) {
        match self {
            WorkerToken::ControlRxq => 0,
            WorkerToken::ControlTxq => 1,
            WorkerToken::Quit => 2,
        }
    }

    fn from_raw_token(data: u64) -> (token: Self) {
        match data % 4 {
            0 => WorkerToken::ControlRxq,
            1 => WorkerToken::ControlTxq,
            _ => WorkerToken::Quit,
        }
    }
}

/// The number of columns and rows of a terminal.
pub(crate) fn get_win_size() -> (size: (u16, u16))
    ensures
        size == (80u16, 24u16),
{
    (80, 24)
}

/// The queues that are left when those for control messages and those of the first `num_ports`
/// ports were taken out.
pub open spec fn without_port_queues<Q>(queues: Map<usize, Q>, num_ports: int) -> Map<usize, Q>
    decreases num_ports,
{
    if num_ports <= 0 {
        queues.remove(CONTROL_RXQ_INDEX).remove(CONTROL_TXQ_INDEX)
    } else {
        without_port_queues(queues, num_ports - 1).remove(
            crate::console::port_queue_mapping::queue_of_port(QueueDirection::Rx, num_ports - 1) as usize,
        ).remove(
            crate::console::port_queue_mapping::queue_of_port(QueueDirection::Tx, num_ports - 1) as usize,
        )
    }
}

/// Whether `queues` has the queues of a console with `num_ports` ports.
pub open spec fn has_console_queues<Q>(queues: Map<usize, Q>, num_ports: int) -> bool {
    &&& queues.dom().contains(CONTROL_RXQ_INDEX)
    &&& queues.dom().contains(CONTROL_TXQ_INDEX)
    &&& forall|queue: usize|
        queue < crate::console::port_queue_mapping::queues_for_ports(num_ports) ==> #[trigger] queues.dom().contains(
            queue,
        )
}

/// Taking out the queues of some ports leaves those of the others.
proof fn lemma_other_queues_stay<Q>(queues: Map<usize, Q>, num_ports: int, queue: usize)
    requires
        num_ports >= 0,
        crate::console::port_queue_mapping::queues_for_ports(num_ports) <= usize::MAX,
        queue == 0 || queue == 1 || queue >= 4,
        queue == 0 || queue == 1 ==> num_ports == 0,
        queue >= 4 ==> queue >= crate::console::port_queue_mapping::queues_for_ports(num_ports),
        queues.dom().contains(queue),
    ensures
        without_port_queues(queues, num_ports).dom().contains(queue),
        without_port_queues(queues, num_ports)[queue] == queues[queue],
    decreases num_ports,
{
    if num_ports > 0 {
        lemma_other_queues_stay(queues, num_ports - 1, queue);
    }
}

/// What the driver is told when it is ready to use a port.
pub open spec fn port_ready_replies<I, O>(port: PortView<I, O>, id: u32) -> Seq<PayloadView> {
    let opened = if port.represents_console {
        seq![
            crate::console::control::console_port_message(id),
            crate::console::control::port_open_message(id, true),
            crate::console::control::resize_message(id, VirtioConsoleResize { cols: 80, rows: 24 }),
        ]
    } else {
        seq![crate::console::control::port_open_message(id, true)]
    };
    if port.name.len() > 0 {
        opened.push(
            crate::console::control::port_name_message(id, vstd::utf8::encode_utf8(port.name)),
        )
    } else {
        opened
    }
}

/// What the driver is told in reply to a message: of all ports when it has found the device, and
/// about a port when it is ready to use it. Other messages have no reply.
pub open spec fn replies<I, O>(
    ports: Seq<PortView<I, O>>,
    message: VirtioConsoleControl,
) -> Seq<PayloadView> {
    if message.event == VIRTIO_CONSOLE_DEVICE_READY {
        Seq::new(ports.len(), |i: int| crate::console::control::port_add_message(i as u32))
    } else if message.event == VIRTIO_CONSOLE_PORT_READY && message.value == 1 {
        port_ready_replies(ports[message.id as int], message.id)
    } else {
        seq![]
    }
}

/// Whether a message is about a port that exists, if it is about a port being ready.
pub open spec fn names_port<I, O>(
    ports: Seq<PortView<I, O>>,
    message: VirtioConsoleControl,
) -> bool {
    message.event == VIRTIO_CONSOLE_PORT_READY && message.value == 1 ==> message.id < ports.len()
}

/// The ports as text.
pub open spec fn port_views<I, O>(ports: Seq<Port<I, O>>) -> Seq<PortView<I, O>> {
    ports.map_values(|port: Port<I, O>| port@)
}

/// The state of sending messages to the driver.
#[derive(Debug, Copy, Clone)]
pub struct ControlRx {
    /// Whether a buffer was given back to the driver, so that it has to be notified.
    pub raise_irq: bool,
    /// The buffer that a message is being written to, and the length of the message.
    pub writing: Option<(u16, usize)>,
}

/// What happened while messages are sent to the driver.
#[derive(Debug)]
pub enum RxEvent<E> {
    /// The worker was woken up.
    Started,
    /// The kick was read, and the queue is enabled or not.
    KickRead(bool),
    /// The queue was locked, or is not ready.
    Locked(bool),
    /// The next buffer was taken from the queue, or there is none.
    Popped(Option<u16>),
    /// The message was written, up to the given number of bytes.
    Written(Result<usize, E>),
    /// The buffer was given back to the driver.
    UsedAdded,
    /// The buffer was put back into the queue.
    Rewound,
}

/// What to do next to send messages to the driver.
#[derive(Debug)]
pub enum RxAction {
    /// Read the kick.
    ReadKick,
    /// Reset the event that tells of new messages, and lock the queue.
    ResetAndLock,
    /// Take the next buffer from the queue.
    Pop,
    /// Write a message to the buffer.
    Write {
        /// The buffer.
        head: u16,
        /// The message.
        message: Vec<u8>,
    },
    /// Give the buffer back to the driver.
    AddUsed {
        /// The buffer.
        head: u16,
        /// The number of bytes in it.
        len: u32,
    },
    /// Put the buffer back into the queue.
    Rewind,
    /// Stop, after notifying the driver if `signal` is set.
    Finish {
        /// Whether to notify the driver.
        signal: bool,
    },
}

/// A step of sending messages to the driver, where `waiting` are the messages to send.
///
/// A buffer goes back to the driver only if the whole message fitted into it, and a buffer for
/// which there is no message goes back to the queue.
pub open spec fn rx_step<E>(
    before: ControlRx,
    waiting: Seq<PayloadView>,
    event: RxEvent<E>,
    action: RxAction,
    after: ControlRx,
    still_waiting: Seq<PayloadView>,
) -> bool {
    match event {
        RxEvent::Started => {
            &&& action is ReadKick
            &&& after == before
            &&& still_waiting == waiting
        },
        RxEvent::KickRead(true) => {
            &&& action is ResetAndLock
            &&& after == before
            &&& still_waiting == waiting
        },
        RxEvent::KickRead(false) | RxEvent::Locked(false) => {
            &&& action == RxAction::Finish { signal: false }
            &&& after == before
            &&& still_waiting == waiting
        },
        RxEvent::Locked(true) | RxEvent::UsedAdded => {
            &&& action is Pop
            &&& after == before
            &&& still_waiting == waiting
        },
        RxEvent::Popped(None) | RxEvent::Rewound => {
            &&& action == RxAction::Finish { signal: before.raise_irq }
            &&& after == before
            &&& still_waiting == waiting
        },
        RxEvent::Popped(Some(buffer)) => if waiting.len() > 0 {
            &&& action matches RxAction::Write { head, message } && head == buffer && message@
                == waiting[0].spec_bytes()
            &&& after == ControlRx {
                writing: Some((buffer, waiting[0].spec_bytes().len() as usize)),
                ..before
            }
            &&& still_waiting == waiting.skip(1)
        } else {
            &&& action is Rewind
            &&& after == before
            &&& still_waiting == waiting
        },
        RxEvent::Written(Ok(len)) => {
            let (head, message_len) = before.writing->0;
            &&& still_waiting == waiting
            &&& if len == message_len {
                &&& action == RxAction::AddUsed { head, len: len as u32 }
                &&& after == ControlRx { raise_irq: true, writing: None }
            } else {
                &&& action is Pop
                &&& after == ControlRx { writing: None, ..before }
            }
        },
        RxEvent::Written(Err(_)) => {
            &&& action is Pop
            &&& after == ControlRx { writing: None, ..before }
            &&& still_waiting == waiting
        },
    }
}

impl ControlRx {
    /// Nothing was sent yet.
    pub fn new() -> (rx: ControlRx)
        ensures
            rx == (ControlRx { raise_irq: false, writing: None }),
    {
        ControlRx { raise_irq: false, writing: None }
    }

    /// Goes on after an event. The first event is [`RxEvent::Started`].
    pub fn process_rx<E>(&mut self, control: &mut ConsoleControl, event: RxEvent<E>) -> (action:
        RxAction)
        requires
            event is Written ==> old(self).writing is Some,
        ensures
            rx_step(*old(self), old(control)@, event, action, *final(self), final(control)@),
    {
        match event {
            RxEvent::Started => RxAction::ReadKick,
            RxEvent::KickRead(enabled) => if enabled {
                RxAction::ResetAndLock
            } else {
                RxAction::Finish { signal: false }
            },
            RxEvent::Locked(ready) => if ready {
                RxAction::Pop
            } else {
                RxAction::Finish { signal: false }
            },
            RxEvent::UsedAdded => RxAction::Pop,
            RxEvent::Popped(None) | RxEvent::Rewound => RxAction::Finish {
                signal: self.raise_irq,
            },
            RxEvent::Popped(Some(head)) => match control.queue_pop() {
                Some(payload) => {
                    let message = payload.into_bytes();
                    self.writing = Some((head, message.len()));
                    RxAction::Write { head, message }
                },
                None => RxAction::Rewind,
            },
            RxEvent::Written(Ok(len)) => {
                let (head, message_len) = self.writing.unwrap();
                self.writing = None;
                if len == message_len {
                    self.raise_irq = true;
                    RxAction::AddUsed {
                        head,
                        len:
                            #[verifier::truncate]
                            (len as u32),
                    }
                } else {
                    RxAction::Pop
                }
            },
            RxEvent::Written(Err(_)) => {
                self.writing = None;
                RxAction::Pop
            },
        }
    }
}

/// The bytes of some messages.
pub open spec fn message_bytes(messages: Seq<PayloadView>) -> Seq<Seq<u8>> {
    messages.map_values(|message: PayloadView| message.spec_bytes())
}

/// The messages that some actions wrote, in their order.
pub open spec fn written_messages(actions: Seq<RxAction>) -> Seq<Seq<u8>>
    decreases actions.len(),
{
    if actions.len() == 0 {
        seq![]
    } else {
        let before = written_messages(actions.drop_last());
        match actions.last() {
            RxAction::Write { message, .. } => before.push(message@),
            _ => before,
        }
    }
}

/// Whether some steps follow each other, and no message is added in between.
pub open spec fn rx_run<E>(
    states: Seq<ControlRx>,
    waiting: Seq<Seq<PayloadView>>,
    events: Seq<RxEvent<E>>,
    actions: Seq<RxAction>,
) -> bool {
    &&& states.len() == events.len() + 1
    &&& waiting.len() == events.len() + 1
    &&& actions.len() == events.len()
    &&& forall|i: int|
        #![trigger events[i]]
        0 <= i < events.len() ==> rx_step(
            states[i],
            waiting[i],
            events[i],
            actions[i],
            states[i + 1],
            waiting[i + 1],
        )
}

/// Messages are written in the order in which they were added, none is left out and none is
/// written twice.
pub proof fn lemma_messages_in_order<E>(
    states: Seq<ControlRx>,
    waiting: Seq<Seq<PayloadView>>,
    events: Seq<RxEvent<E>>,
    actions: Seq<RxAction>,
)
    requires
        rx_run(states, waiting, events, actions),
    ensures
        written_messages(actions) + message_bytes(waiting.last()) == message_bytes(waiting[0]),
    decreases events.len(),
{
    if events.len() > 0 {
        let last = events.len() - 1;
        assert(rx_step(
            states[last],
            waiting[last],
            events[last],
            actions[last],
            states[last + 1],
            waiting[last + 1],
        ));
        assert forall|i: int|
            #![trigger events.drop_last()[i]]
            0 <= i < events.drop_last().len() implies rx_step(
            states.drop_last()[i],
            waiting.drop_last()[i],
            events.drop_last()[i],
            actions.drop_last()[i],
            states.drop_last()[i + 1],
            waiting.drop_last()[i + 1],
        ) by {
            assert(events.drop_last()[i] == events[i]);
        }
        lemma_messages_in_order(
            states.drop_last(),
            waiting.drop_last(),
            events.drop_last(),
            actions.drop_last(),
        );
        assert(waiting.drop_last().last() == waiting[last]);
        if actions.last() is Write {
            assert(seq![waiting[last][0].spec_bytes()] + message_bytes(waiting[last].skip(1))
                =~= message_bytes(waiting[last]));
            assert(written_messages(actions) + message_bytes(waiting.last()) =~= written_messages(
                actions.drop_last(),
            ) + message_bytes(waiting[last]));
        }
    } else {
        assert(written_messages(actions) + message_bytes(waiting.last()) =~= message_bytes(
            waiting[0],
        ));
    }
}

/// The driver is notified exactly if a buffer was given back to it.
pub proof fn lemma_rx_signals_used<E>(
    states: Seq<ControlRx>,
    waiting: Seq<Seq<PayloadView>>,
    events: Seq<RxEvent<E>>,
    actions: Seq<RxAction>,
)
    requires
        rx_run(states, waiting, events, actions),
        !states[0].raise_irq,
    ensures
        states.last().raise_irq <==> exists|i: int|
            0 <= i < actions.len() && (#[trigger] actions[i]) is AddUsed,
    decreases events.len(),
{
    if events.len() > 0 {
        let last = events.len() - 1;
        assert(rx_step(
            states[last],
            waiting[last],
            events[last],
            actions[last],
            states[last + 1],
            waiting[last + 1],
        ));
        assert forall|i: int|
            #![trigger events.drop_last()[i]]
            0 <= i < events.drop_last().len() implies rx_step(
            states.drop_last()[i],
            waiting.drop_last()[i],
            events.drop_last()[i],
            actions.drop_last()[i],
            states.drop_last()[i + 1],
            waiting.drop_last()[i + 1],
        ) by {
            assert(events.drop_last()[i] == events[i]);
        }
        lemma_rx_signals_used(
            states.drop_last(),
            waiting.drop_last(),
            events.drop_last(),
            actions.drop_last(),
        );
        let shorter = actions.drop_last();
        assert(states.drop_last().last() == states[last]);
        if states[last].raise_irq {
            let i = choose|i: int| 0 <= i < shorter.len() && (#[trigger] shorter[i]) is AddUsed;
            assert(actions[i] is AddUsed);
        } else {
            assert forall|i: int| 0 <= i < last implies !((#[trigger] actions[i]) is AddUsed) by {
                assert(shorter[i] == actions[i]);
            }
            assert(actions[last] == actions.last());
        }
    }
}

/// The state of receiving messages of the driver.
#[derive(Debug, Copy, Clone, PartialEq, Eq, Structural)]
pub struct ControlTx {
    /// Whether a buffer was taken from the queue, so that the driver has to be notified.
    pub raise_irq: bool,
}

/// What happened while messages of the driver are received.
#[derive(Debug)]
pub enum TxEvent {
    /// The worker was woken up.
    Started,
    /// The kick was read, and the queue is enabled or not.
    KickRead(bool),
    /// The queue was locked, or is not ready.
    Locked(bool),
    /// The next buffer was taken from the queue and holds these bytes, or there is none.
    Popped(Option<Vec<u8>>),
    /// The buffer was given back to the driver.
    UsedAdded,
}

/// What to do next to receive messages of the driver.
#[derive(Debug, Copy, Clone, PartialEq, Eq, Structural)]
pub enum TxAction {
    /// Read the kick.
    ReadKick,
    /// Lock the queue.
    Lock,
    /// Take the next buffer from the queue.
    Pop,
    /// Give a buffer back to the driver.
    AddUsed {
        /// The buffer.
        head: u16,
        /// The number of bytes that were used.
        len: u32,
    },
    /// Stop, after notifying the driver if `signal` is set.
    Finish {
        /// Whether to notify the driver.
        signal: bool,
    },
}

/// The message in a buffer of the driver, if there is a whole one.
pub open spec fn received_message(event: TxEvent) -> Option<VirtioConsoleControl> {
    match event {
        TxEvent::Popped(Some(bytes)) => if bytes@.len() >= CONTROL_SIZE {
            Some(VirtioConsoleControl::of_bytes(bytes@))
        } else {
            None
        },
        _ => None,
    }
}

/// A step of receiving messages of the driver, where `waiting` are the messages to send to it.
///
/// A message is acknowledged by giving back the buffer that starts with descriptor 0, whichever buffer
/// the message came in. For a buffer without a whole message nothing is given back.
pub open spec fn tx_step<I, O>(
    ports: Seq<PortView<I, O>>,
    before: ControlTx,
    waiting: Seq<PayloadView>,
    event: TxEvent,
    action: TxAction,
    after: ControlTx,
    then_waiting: Seq<PayloadView>,
) -> bool {
    match event {
        TxEvent::Started => {
            &&& action == TxAction::ReadKick
            &&& after == before
            &&& then_waiting == waiting
        },
        TxEvent::KickRead(true) => {
            &&& action == TxAction::Lock
            &&& after == before
            &&& then_waiting == waiting
        },
        TxEvent::KickRead(false) | TxEvent::Locked(false) => {
            &&& action == TxAction::Finish { signal: false }
            &&& after == before
            &&& then_waiting == waiting
        },
        TxEvent::Locked(true) | TxEvent::UsedAdded => {
            &&& action == TxAction::Pop
            &&& after == before
            &&& then_waiting == waiting
        },
        TxEvent::Popped(None) => {
            &&& action == TxAction::Finish { signal: before.raise_irq }
            &&& after == before
            &&& then_waiting == waiting
        },
        TxEvent::Popped(Some(_)) => {
            &&& after == ControlTx { raise_irq: true }
            &&& match received_message(event) {
                None => {
                    &&& action == TxAction::Pop
                    &&& then_waiting == waiting
                },
                Some(message) => {
                    &&& action == TxAction::AddUsed { head: 0, len: CONTROL_SIZE as u32 }
                    &&& then_waiting == waiting + replies(ports, message)
                },
            }
        },
    }
}

/// As many bytes of a message as there is room for.
pub open spec fn fitting_bytes(message: PayloadView, room: usize) -> Seq<u8> {
    if message.spec_bytes().len() <= room {
        message.spec_bytes()
    } else {
        message.spec_bytes().take(room as int)
    }
}

/// What becomes of a queue when messages are written to buffers, of which the guest decides where
/// they start and how much room they have, and whether a message was written completely.
///
/// Each message goes to a buffer of its own. The buffer is given back with the length of the message
/// if it has room for the whole message, and is given up otherwise.
pub open spec fn messages_written(
    mem: GuestMemoryMmap<()>,
    queue: LockedQueueView,
    messages: Seq<PayloadView>,
    heads: Seq<u16>,
    rooms: Seq<usize>,
) -> (LockedQueueView, bool)
    decreases heads.len(),
{
    if heads.len() == 0 {
        (queue, false)
    } else {
        let (before, complete) = messages_written(
            mem,
            queue,
            messages,
            heads.drop_last(),
            rooms.drop_last(),
        );
        let message = messages[heads.len() - 1];
        let written = before.took(heads.last()).wrote(
            heads.last(),
            rooms.last(),
            fitting_bytes(message, rooms.last()),
        );
        if message.spec_bytes().len() <= rooms.last() {
            (written.used(mem, heads.last(), message.spec_bytes().len() as u32), true)
        } else {
            (written, complete)
        }
    }
}

/// What was done when messages were sent to the buffers that start with `heads`.
pub open spec fn messages_sent(
    mem: GuestMemoryMmap<()>,
    before: ControlRx,
    waiting: Seq<PayloadView>,
    queue: LockedQueueView,
    after: ControlRx,
    still_waiting: Seq<PayloadView>,
    then_queue: LockedQueueView,
    heads: Seq<u16>,
    rooms: Seq<usize>,
) -> bool {
    let (written, complete) = messages_written(mem, queue, waiting, heads, rooms);
    &&& heads.len() == rooms.len() <= waiting.len()
    &&& heads.len() > 0 ==> crate::virtio::guest_queue::can_take_buffer(queue.fields, mem)
    &&& still_waiting == waiting.skip(heads.len() as int)
    &&& then_queue == written
    &&& after.raise_irq == (before.raise_irq || complete)
    &&& after.writing == if heads.len() == 0 {
        before.writing
    } else {
        None
    }
}

/// What sending messages does, where the guest decides on the buffers.
///
/// It goes on until there is no buffer to take or no message is left. If it fails, that is because
/// the last buffer that was taken cannot be opened: the message for it is lost.
pub open spec fn sending_ended(
    mem: GuestMemoryMmap<()>,
    before: ControlRx,
    waiting: Seq<PayloadView>,
    queue: LockedQueueView,
    failed: bool,
    after: ControlRx,
    still_waiting: Seq<PayloadView>,
    then_queue: LockedQueueView,
    heads: Seq<u16>,
    rooms: Seq<usize>,
) -> bool {
    if failed {
        let (written, complete) = messages_written(mem, queue, waiting, heads.drop_last(), rooms);
        &&& 0 < heads.len() <= waiting.len()
        &&& rooms.len() == heads.len() - 1
        &&& crate::virtio::guest_queue::can_take_buffer(queue.fields, mem)
        &&& still_waiting == waiting.skip(heads.len() as int)
        &&& then_queue == written.took(heads.last())
        &&& after.raise_irq == (before.raise_irq || complete)
        &&& after.writing == Some(
            (heads.last(), waiting[heads.len() - 1].spec_bytes().len() as usize),
        )
    } else {
        let written = messages_written(mem, queue, waiting, heads, rooms).0;
        &&& messages_sent(mem, before, waiting, queue, after, still_waiting, written, heads, rooms)
        &&& then_queue == written.missed() || (still_waiting.len() == 0 && then_queue == written)
    }
}

/// The driver gets the messages in the order in which they were added, none is left out and none
/// comes twice: each is written to a buffer of its own, as far as the buffer has room for it. The
/// buffers are those that were taken from the queue, in the order in which they were taken.
pub proof fn lemma_messages_reach_the_driver(
    mem: GuestMemoryMmap<()>,
    queue: LockedQueueView,
    messages: Seq<PayloadView>,
    heads: Seq<u16>,
    rooms: Seq<usize>,
)
    requires
        heads.len() == rooms.len() <= messages.len(),
    ensures
        ({
            let record = messages_written(mem, queue, messages, heads, rooms).0.record;
            &&& record.taken == queue.record.taken + heads
            &&& record.written == queue.record.written + Seq::new(
                heads.len(),
                |i: int|
                    BufferWrite {
                        head: heads[i],
                        room: rooms[i],
                        bytes: fitting_bytes(messages[i], rooms[i]),
                    },
            )
        }),
    decreases heads.len(),
{
    let all = Seq::new(
        heads.len(),
        |i: int|
            BufferWrite {
                head: heads[i],
                room: rooms[i],
                bytes: fitting_bytes(messages[i], rooms[i]),
            },
    );
    let taken = queue.record.taken;
    let written = queue.record.written;
    if heads.len() == 0 {
        assert(taken + heads =~= taken);
        assert(written + all =~= written);
    } else {
        lemma_messages_reach_the_driver(
            mem,
            queue,
            messages,
            heads.drop_last(),
            rooms.drop_last(),
        );
        assert(taken + heads =~= (taken + heads.drop_last()).push(heads.last()));
        assert(written + all =~= (written + all.drop_last()).push(all.last()));
        assert(all.drop_last() =~= Seq::new(
            heads.drop_last().len(),
            |i: int|
                BufferWrite {
                    head: heads.drop_last()[i],
                    room: rooms.drop_last()[i],
                    bytes: fitting_bytes(messages[i], rooms.drop_last()[i]),
                },
        ));
    }
}

/// The message that bytes hold which were read from a buffer, or `None` if the buffer had too few.
pub open spec fn message_of(bytes: Option<Seq<u8>>) -> Option<VirtioConsoleControl> {
    match bytes {
        Some(bytes) => Some(VirtioConsoleControl::of_bytes(bytes)),
        None => None,
    }
}

/// What reading a buffer does from which `bytes` are read, or which is too short for a message: a
/// message about a port that does not exist is refused, and any other is replied to.
pub open spec fn buffer_read<I, O>(
    mem: GuestMemoryMmap<()>,
    ports: Seq<PortView<I, O>>,
    waiting: Seq<PayloadView>,
    queue: LockedQueueView,
    before: ControlTx,
    result: Result<TxAction, TxFault>,
    after: ControlTx,
    then_waiting: Seq<PayloadView>,
    then_queue: LockedQueueView,
    head: u16,
    bytes: Option<Seq<u8>>,
) -> bool {
    let read = queue.read(head, bytes);
    match message_of(bytes) {
        Some(message) => if names_port(ports, message) {
            &&& result == Ok::<TxAction, TxFault>(TxAction::Pop)
            &&& after == ControlTx { raise_irq: true }
            &&& then_waiting == waiting + replies(ports, message)
            &&& then_queue == read.used(mem, 0, CONTROL_SIZE as u32)
        } else {
            &&& result == Err::<TxAction, TxFault>(TxFault::UnknownPort(message.id))
            &&& after == before
            &&& then_waiting == waiting
            &&& then_queue == read
        },
        None => {
            &&& result == Ok::<TxAction, TxFault>(TxAction::Pop)
            &&& after == ControlTx { raise_irq: true }
            &&& then_waiting == waiting
            &&& then_queue == read
        },
    }
}

/// Why a buffer of the driver cannot be received.
#[derive(Debug)]
pub enum TxFault {
    /// The buffer is not in the memory of the guest.
    InvalidBuffer(virtio_queue::Error),
    /// The message is about a port that does not exist.
    UnknownPort(u32),
}

/// What a worker watches.
#[derive(Debug, Copy, Clone, PartialEq, Eq, Structural)]
pub enum WorkerEvent {
    /// The driver kicks the queue for messages to it.
    ControlRxKick,
    /// The driver kicks the queue for messages of it.
    ControlTxKick,
    /// A message for the driver was added.
    MessageAdded,
    /// The device is stopped.
    Stop,
}

/// What a worker does when it wakes up.
#[derive(Debug, Copy, Clone, PartialEq, Eq, Structural)]
pub enum WorkerStep {
    /// Send messages to the driver.
    ProcessRx,
    /// Receive messages of the driver.
    ProcessTx,
    /// Stop.
    Quit,
}

/// The main worker, which takes care of starting the workers of the ports.
pub struct MainWorker<I, O, Q> {
    control_rxq: Q,
    control_txq: Q,
    control: ConsoleControl,
    port_queues: BTreeMap<usize, Q>,
    ports: Vec<Port<I, O>>,
    starts: Vec<PortStart<Q>>,
}

/// The state of a main worker.
#[verifier::ext_equal]
pub struct MainWorkerView<I, O, Q> {
    /// The queue for messages to the driver.
    pub control_rxq: Q,
    /// The queue for messages of the driver.
    pub control_txq: Q,
    /// The messages for the driver.
    pub control: Seq<PayloadView>,
    /// The queues that belong to no port.
    pub port_queues: Map<usize, Q>,
    /// The ports.
    pub ports: Seq<PortView<I, O>>,
    /// What is left to do to start the ports.
    pub starts: Seq<PortStart<Q>>,
}

impl<I, O, Q> MainWorkerView<I, O, Q> {
    /// A worker that was just made for some ports: all of them are started, with their queues.
    pub open spec fn fresh(queues: Map<usize, Q>, ports: Seq<PortView<I, O>>) -> MainWorkerView<
        I,
        O,
        Q,
    > {
        MainWorkerView {
            control_rxq: queues[CONTROL_RXQ_INDEX],
            control_txq: queues[CONTROL_TXQ_INDEX],
            control: seq![],
            port_queues: without_port_queues(queues, ports.len() as int),
            ports: ports.map_values(|port: PortView<I, O>| port.started()),
            starts: Seq::new(
                ports.len(),
                |i: int|
                    ports[i].start_steps(
                        queues[crate::console::port_queue_mapping::queue_of_port(
                            QueueDirection::Rx,
                            i,
                        ) as usize],
                        queues[crate::console::port_queue_mapping::queue_of_port(
                            QueueDirection::Tx,
                            i,
                        ) as usize],
                    ),
            ),
        }
    }
}

impl<I, O, Q> View for MainWorker<I, O, Q> {
    type V = MainWorkerView<I, O, Q>;

    closed spec fn view(&self) -> MainWorkerView<I, O, Q> {
        MainWorkerView {
            control_rxq: self.control_rxq,
            control_txq: self.control_txq,
            control: self.control@,
            port_queues: self.port_queues@,
            ports: port_views(self.ports@),
            starts: self.starts@,
        }
    }
}

impl<I, O, Q> MainWorker<I, O, Q> {
    /// A worker for some ports, all of which it starts.
    pub fn new(queues: BTreeMap<usize, Q>, ports: Vec<Port<I, O>>) -> (worker: Self)
        requires
            crate::console::port_queue_mapping::queues_for_ports(ports@.len() as int) <= usize::MAX,
            has_console_queues(queues@, ports@.len() as int),
        ensures
            worker@ == MainWorkerView::fresh(queues@, port_views(ports@)),
    {
        let ghost all = queues@;
        let mut queues = queues;
        let control_rxq = queues.remove(&CONTROL_RXQ_INDEX).unwrap();
        let control_txq = queues.remove(&CONTROL_TXQ_INDEX).unwrap();
        let mut worker = MainWorker {
            control_rxq,
            control_txq,
            control: ConsoleControl::new(),
            port_queues: queues,
            ports,
            starts: Vec::new(),
        };
        worker.start_ports(Ghost(all));
        assert(worker@.control =~= seq![]);
        worker
    }

    /// Starts all ports, with their queues out of `queues`.
    fn start_ports(&mut self, Ghost(queues): Ghost<Map<usize, Q>>)
        requires
            crate::console::port_queue_mapping::queues_for_ports(old(self)@.ports.len() as int) <= usize::MAX,
            has_console_queues(queues, old(self)@.ports.len() as int),
            old(self)@.port_queues == without_port_queues(queues, 0),
            old(self)@.starts.len() == 0,
        ensures
            final(self)@.control_rxq == old(self)@.control_rxq,
            final(self)@.control_txq == old(self)@.control_txq,
            final(self)@.control == old(self)@.control,
            final(self)@.port_queues == without_port_queues(queues, old(self)@.ports.len() as int),
            final(self)@.ports == MainWorkerView::fresh(queues, old(self)@.ports).ports,
            final(self)@.starts == MainWorkerView::fresh(queues, old(self)@.ports).starts,
    {
        let ghost before = self.ports@;
        let mut port_id: usize = 0;
        while port_id < self.ports.len()
            invariant
                port_id <= self.ports@.len(),
                self.ports@.len() == before.len(),
                crate::console::port_queue_mapping::queues_for_ports(before.len() as int) <= usize::MAX,
                has_console_queues(queues, before.len() as int),
                self.control_rxq == old(self).control_rxq,
                self.control_txq == old(self).control_txq,
                self.control == old(self).control,
                self.port_queues@ == without_port_queues(queues, port_id as int),
                forall|i: int|
                    0 <= i < port_id ==> (#[trigger] self.ports@[i])@ == before[i]@.started(),
                forall|i: int|
                    port_id <= i < before.len() ==> #[trigger] self.ports@[i] == before[i],
                self.starts@.len() == port_id,
                forall|i: int|
                    0 <= i < port_id ==> #[trigger] self.starts@[i] == MainWorkerView::fresh(
                        queues,
                        port_views(before),
                    ).starts[i],
            decreases before.len() - port_id,
        {
            let ghost rx = crate::console::port_queue_mapping::queue_of_port(
                QueueDirection::Rx,
                port_id as int,
            ) as usize;
            let ghost tx = crate::console::port_queue_mapping::queue_of_port(
                QueueDirection::Tx,
                port_id as int,
            ) as usize;
            proof {
                assert(queues.dom().contains(rx));
                assert(queues.dom().contains(tx));
                lemma_other_queues_stay(queues, port_id as int, rx);
                lemma_other_queues_stay(queues, port_id as int, tx);
            }
            let rx_queue = self.port_queues.remove(
                &port_id_to_queue_idx(QueueDirection::Rx, port_id),
            ).unwrap();
            let tx_queue = self.port_queues.remove(
                &port_id_to_queue_idx(QueueDirection::Tx, port_id),
            ).unwrap();
            let start = self.ports[port_id].start(rx_queue, tx_queue);
            self.starts.push(start);
            port_id += 1;
        }
        assert(self@.ports =~= MainWorkerView::fresh(queues, port_views(before)).ports);
        assert(self@.starts =~= MainWorkerView::fresh(queues, port_views(before)).starts);
    }

    /// What is left to do to start the ports, one entry for each of them.
    pub fn take_starts(&mut self) -> (starts: Vec<PortStart<Q>>)
        ensures
            starts@ == old(self)@.starts,
            final(self)@ == (MainWorkerView { starts: seq![], ..old(self)@ }),
    {
        let mut starts: Vec<PortStart<Q>> = Vec::new();
        std::mem::swap(&mut starts, &mut self.starts);
        starts
    }

    /// The ports.
    pub fn ports(&self) -> (ports: &Vec<Port<I, O>>)
        ensures
            port_views(ports@) == self@.ports,
    {
        &self.ports
    }

    /// The queue for messages to the driver.
    pub fn control_rxq(&self) -> (queue: &Q)
        ensures
            *queue == self@.control_rxq,
    {
        &self.control_rxq
    }

    /// The queue for messages of the driver.
    pub fn control_txq(&self) -> (queue: &Q)
        ensures
            *queue == self@.control_txq,
    {
        &self.control_txq
    }

    /// The messages for the driver.
    pub fn control_mut(&mut self) -> (control: &mut ConsoleControl)
        ensures
            control@ == old(self)@.control,
            final(self)@ == (MainWorkerView { control: final(control)@, ..old(self)@ }),
    {
        &mut self.control
    }

    /// Under which token the worker watches an event. New messages count like buffers for them.
    pub fn watch(event: WorkerEvent) -> (token: WorkerToken)
        ensures
            token == (match event {
                WorkerEvent::ControlRxKick | WorkerEvent::MessageAdded => WorkerToken::ControlRxq,
                WorkerEvent::ControlTxKick => WorkerToken::ControlTxq,
                WorkerEvent::Stop => WorkerToken::Quit,
            }),
    {
        match event {
            WorkerEvent::ControlRxKick | WorkerEvent::MessageAdded => WorkerToken::ControlRxq,
            WorkerEvent::ControlTxKick => WorkerToken::ControlTxq,
            WorkerEvent::Stop => WorkerToken::Quit,
        }
    }

    /// What the worker does about an event.
    pub fn run(token: WorkerToken) -> (step: WorkerStep)
        ensures
            step == (match token {
                WorkerToken::ControlRxq => WorkerStep::ProcessRx,
                WorkerToken::ControlTxq => WorkerStep::ProcessTx,
                WorkerToken::Quit => WorkerStep::Quit,
            }),
    {
        match token {
            WorkerToken::ControlRxq => WorkerStep::ProcessRx,
            WorkerToken::ControlTxq => WorkerStep::ProcessTx,
            WorkerToken::Quit => WorkerStep::Quit,
        }
    }

    /// Goes on with sending messages to the driver.
    pub fn process_rx<E>(&mut self, rx: &mut ControlRx, event: RxEvent<E>) -> (action: RxAction)
        requires
            event is Written ==> old(rx).writing is Some,
        ensures
            rx_step(
                *old(rx),
                old(self)@.control,
                event,
                action,
                *final(rx),
                final(self)@.control,
            ),
            final(self)@ == (MainWorkerView { control: final(self)@.control, ..old(self)@ }),
    {
        rx.process_rx(&mut self.control, event)
    }

    /// Sends messages to the driver as long as there are messages and buffers for them, and tells
    /// how to go on. It is called when the queue was locked. If the buffer for a message is not in
    /// the memory of the guest that is an error, and the message is lost.
    pub fn send_messages(
        &mut self,
        rx: &mut ControlRx,
        queue: &mut LockedQueue,
        mem: &GuestMemoryMmap<()>,
    ) -> (result: Result<RxAction, virtio_queue::Error>)
        ensures
            final(self)@ == (MainWorkerView { control: final(self)@.control, ..old(self)@ }),
            exists|heads: Seq<u16>, rooms: Seq<usize>|
                #[trigger] sending_ended(
                    *mem,
                    *old(rx),
                    old(self)@.control,
                    old(queue)@,
                    result is Err,
                    *final(rx),
                    final(self)@.control,
                    final(queue)@,
                    heads,
                    rooms,
                ),
            result matches Ok(action) ==> action == (RxAction::Finish {
                signal: final(rx).raise_irq,
            }),
    {
        let ghost waiting = self@.control;
        let ghost mut heads: Seq<u16> = seq![];
        let ghost mut rooms: Seq<usize> = seq![];
        assert(waiting.skip(0) =~= waiting);
        loop
            invariant
                self@ == (MainWorkerView { control: self@.control, ..old(self)@ }),
                waiting == old(self)@.control,
                messages_sent(
                    *mem,
                    *old(rx),
                    waiting,
                    old(queue)@,
                    *rx,
                    self@.control,
                    queue@,
                    heads,
                    rooms,
                ),
            decreases self@.control.len(),
        {
            let ghost before = queue@;
            let chain = match queue.take(mem) {
                None => {
                    let result: Result<RxAction, virtio_queue::Error> = Ok(
                        self.process_rx::<()>(rx, RxEvent::Popped(None)),
                    );
                    assert(sending_ended(
                        *mem,
                        *old(rx),
                        waiting,
                        old(queue)@,
                        result is Err,
                        *rx,
                        self@.control,
                        queue@,
                        heads,
                        rooms,
                    ));
                    return result;
                },
                Some(chain) => chain,
            };
            let head: u16 = chain_head_index(&chain);
            match self.process_rx::<()>(rx, RxEvent::Popped(Some(head))) {
                RxAction::Write { message, .. } => {
                    let ghost sent = heads.len() as int;
                    assert(waiting.skip(sent).skip(1) =~= waiting.skip(sent + 1));
                    assert(message.len() == message@.len());
                    assert(heads.push(head).drop_last() =~= heads);
                    let mut buffer = match WritableBuffer::open(chain, mem) {
                        Ok(buffer) => buffer,
                        Err(e) => {
                            let result: Result<RxAction, virtio_queue::Error> = Err(e);
                            assert(sending_ended(
                                *mem,
                                *old(rx),
                                waiting,
                                old(queue)@,
                                result is Err,
                                *rx,
                                self@.control,
                                queue@,
                                heads.push(head),
                                rooms,
                            ));
                            return result;
                        },
                    };
                    let ghost room = buffer.room();
                    self.write_message(rx, message, &mut buffer, queue, mem);
                    proof {
                        assert(rooms.push(room).drop_last() =~= rooms);
                        heads = heads.push(head);
                        rooms = rooms.push(room);
                    }
                },
                _ => {
                    queue.put_back();
                    proof {
                        crate::virtio::locked_queue::lemma_rewind_undoes_take(before, head);
                    }
                    let result: Result<RxAction, virtio_queue::Error> = Ok(
                        self.process_rx::<()>(rx, RxEvent::Rewound),
                    );
                    assert(sending_ended(
                        *mem,
                        *old(rx),
                        waiting,
                        old(queue)@,
                        result is Err,
                        *rx,
                        self@.control,
                        queue@,
                        heads,
                        rooms,
                    ));
                    return result;
                },
            }
        }
    }

    /// Writes a message to a buffer that was opened for it, as [`RxAction::Write`] asks for, and gives
    /// the buffer back to the driver. A buffer that has no room for the whole message is given up.
    pub fn write_message<'a>(
        &mut self,
        rx: &mut ControlRx,
        message: Vec<u8>,
        buffer: &mut WritableBuffer<'a>,
        queue: &mut LockedQueue,
        mem: &GuestMemoryMmap<()>,
    ) -> (action: RxAction)
        requires
            old(rx).writing == Some((old(buffer).head(), message@.len() as usize)),
        ensures
            final(self)@ == old(self)@,
            action is Pop,
            if message@.len() <= old(buffer).room() {
                &&& *final(rx) == ControlRx { raise_irq: true, writing: None }
                &&& final(queue)@ == old(queue)@.wrote(
                    old(buffer).head(),
                    old(buffer).room(),
                    message@,
                ).used(*mem, old(buffer).head(), message@.len() as u32)
            } else {
                &&& *final(rx) == ControlRx { writing: None, ..*old(rx) }
                &&& final(queue)@ == old(queue)@.wrote(
                    old(buffer).head(),
                    old(buffer).room(),
                    message@.take(old(buffer).room() as int),
                )
            },
    {
        assert(message.len() == message@.len());
        assert(message@.take(message@.len() as int) =~= message@);
        let written = queue.write(buffer, message.as_slice());
        match self.process_rx(rx, RxEvent::Written(written)) {
            RxAction::AddUsed { head, len } => {
                // A buffer that cannot be given back is given up.
                let _added = queue.add_used(mem, head, len);
                self.process_rx::<()>(rx, RxEvent::UsedAdded)
            },
            action => action,
        }
    }

    /// Receives the next buffer of the driver, if there is one, and replies to the message in it.
    /// It is called when the queue was locked, as long as it returns [`TxAction::Pop`].
    pub fn receive_message(
        &mut self,
        tx: &mut ControlTx,
        queue: &mut LockedQueue,
        mem: &GuestMemoryMmap<()>,
    ) -> (result: Result<TxAction, TxFault>)
        requires
            old(self)@.ports.len() <= u32::MAX,
        ensures
            final(self)@ == (MainWorkerView { control: final(self)@.control, ..old(self)@ }),
            result matches Ok(TxAction::Finish { signal }) ==> {
                &&& signal == old(tx).raise_irq
                &&& *final(tx) == *old(tx)
                &&& final(self)@.control == old(self)@.control
                &&& final(queue)@ == old(queue)@.missed()
            },
            !(result matches Ok(TxAction::Finish { .. })) ==> {
                let head = final(queue)@.record.taken.last();
                &&& crate::virtio::guest_queue::can_take_buffer(old(queue)@.fields, *mem)
                &&& if result matches Err(TxFault::InvalidBuffer(_)) {
                    &&& *final(tx) == *old(tx)
                    &&& final(self)@.control == old(self)@.control
                    &&& final(queue)@ == old(queue)@.took(head)
                } else {
                    buffer_read(
                        *mem,
                        old(self)@.ports,
                        old(self)@.control,
                        old(queue)@.took(head),
                        *old(tx),
                        result,
                        *final(tx),
                        final(self)@.control,
                        final(queue)@,
                        head,
                        final(queue)@.record.read.last().bytes,
                    )
                }
            },
    {
        let chain = match queue.take(mem) {
            None => return Ok(self.process_tx(tx, TxEvent::Popped(None))),
            Some(chain) => chain,
        };
        let mut buffer = match ReadableBuffer::open(&chain, mem) {
            Ok(buffer) => buffer,
            Err(e) => return Err(TxFault::InvalidBuffer(e)),
        };
        self.read_message(tx, &mut buffer, queue, mem)
    }

    /// Reads the message in a buffer that was opened for it and replies to it, and gives the buffer
    /// back that starts with descriptor 0. A buffer that is too short for a message is given up.
    pub fn read_message<'a>(
        &mut self,
        tx: &mut ControlTx,
        buffer: &mut ReadableBuffer<'a>,
        queue: &mut LockedQueue,
        mem: &GuestMemoryMmap<()>,
    ) -> (result: Result<TxAction, TxFault>)
        requires
            old(self)@.ports.len() <= u32::MAX,
        ensures
            final(self)@ == (MainWorkerView { control: final(self)@.control, ..old(self)@ }),
            ({
                let bytes = final(queue)@.record.read.last().bytes;
                &&& bytes is Some <==> CONTROL_SIZE <= old(buffer).len()
                &&& bytes matches Some(bytes) ==> bytes.len() == CONTROL_SIZE
                &&& buffer_read(
                    *mem,
                    old(self)@.ports,
                    old(self)@.control,
                    old(queue)@,
                    *old(tx),
                    result,
                    *final(tx),
                    final(self)@.control,
                    final(queue)@,
                    old(buffer).head(),
                    bytes,
                )
            }),
    {
        let mut bytes: Vec<u8> = Vec::new();
        if let Ok(read) = queue.read(buffer) {
            bytes.extend_from_slice(read.as_slice());
            assert(bytes@ =~= read@);
        }
        if let Some(message) = VirtioConsoleControl::from_bytes(bytes.as_slice()) {
            if !self.accepts(message) {
                return Err(TxFault::UnknownPort(message.id));
            }
        }
        if let TxAction::AddUsed { head, len } = self.process_tx(tx, TxEvent::Popped(Some(bytes))) {
            // A buffer that cannot be given back is given up.
            let _added = queue.add_used(mem, head, len);
            self.process_tx(tx, TxEvent::UsedAdded);
        }
        Ok(TxAction::Pop)
    }

    /// Whether a message can be handled: one that tells that a port is ready has to name a port.
    pub fn accepts(&self, message: VirtioConsoleControl) -> (accepted: bool)
        ensures
            accepted == names_port(self@.ports, message),
    {
        message.event != VIRTIO_CONSOLE_PORT_READY || message.value != 1 || (message.id as usize)
            < self.ports.len()
    }

    /// Goes on with receiving messages of the driver. The first event is [`TxEvent::Started`].
    pub fn process_tx(&mut self, tx: &mut ControlTx, event: TxEvent) -> (action: TxAction)
        requires
            old(self)@.ports.len() <= u32::MAX,
            received_message(event) matches Some(message) ==> names_port(
                old(self)@.ports,
                message,
            ),
        ensures
            tx_step(
                old(self)@.ports,
                *old(tx),
                old(self)@.control,
                event,
                action,
                *final(tx),
                final(self)@.control,
            ),
            final(self)@ == (MainWorkerView { control: final(self)@.control, ..old(self)@ }),
    {
        match event {
            TxEvent::Started => TxAction::ReadKick,
            TxEvent::KickRead(enabled) => if enabled {
                TxAction::Lock
            } else {
                TxAction::Finish { signal: false }
            },
            TxEvent::Locked(ready) => if ready {
                TxAction::Pop
            } else {
                TxAction::Finish { signal: false }
            },
            TxEvent::UsedAdded => TxAction::Pop,
            TxEvent::Popped(None) => TxAction::Finish { signal: tx.raise_irq },
            TxEvent::Popped(Some(bytes)) => {
                tx.raise_irq = true;
                match VirtioConsoleControl::from_bytes(bytes.as_slice()) {
                    None => TxAction::Pop,
                    Some(message) => {
                        self.handle_message(message);
                        TxAction::AddUsed { head: 0, len: CONTROL_SIZE as u32 }
                    },
                }
            },
        }
    }

    /// Replies to a message of the driver.
    fn handle_message(&mut self, message: VirtioConsoleControl)
        requires
            old(self)@.ports.len() <= u32::MAX,
            names_port(old(self)@.ports, message),
        ensures
            final(self)@ == (MainWorkerView {
                control: old(self)@.control + replies(old(self)@.ports, message),
                ..old(self)@
            }),
    {
        let ghost waiting = self.control@;
        if message.event == VIRTIO_CONSOLE_DEVICE_READY {
            let mut port_id: usize = 0;
            while port_id < self.ports.len()
                invariant
                    port_id <= self.ports@.len() <= u32::MAX,
                    self.ports == old(self).ports,
                    self.control_rxq == old(self).control_rxq,
                    self.control_txq == old(self).control_txq,
                    self.port_queues == old(self).port_queues,
                    self.starts == old(self).starts,
                    self.control@ == waiting + Seq::new(
                        port_id as nat,
                        |i: int| crate::console::control::port_add_message(i as u32),
                    ),
                decreases self.ports@.len() - port_id,
            {
                self.control.port_add(port_id as u32);
                port_id += 1;
                assert(self.control@ =~= waiting + Seq::new(
                    port_id as nat,
                    |i: int| crate::console::control::port_add_message(i as u32),
                ));
            }
            assert(self@.control =~= waiting + replies(self@.ports, message));
        } else if message.event == VIRTIO_CONSOLE_PORT_READY {
            if message.value != 1 {
                assert(self@.control =~= waiting + replies(self@.ports, message));
                return ;
            }
            let port = &self.ports[message.id as usize];
            assert(port@ == self@.ports[message.id as int]);
            if port.is_console() {
                self.control.mark_console_port(message.id);
                self.control.port_open(message.id, true);
                let (cols, rows) = get_win_size();
                self.control.console_resize(message.id, VirtioConsoleResize { cols, rows });
            } else {
                self.control.port_open(message.id, true);
            }
            let name = self.ports[message.id as usize].name();
            assert(name@ == self@.ports[message.id as int].name);
            if !name.is_empty() {
                self.control.port_name(message.id, name);
            }
            assert(self@.control =~= waiting + replies(self@.ports, message));
        } else {
            assert(self@.control =~= waiting + replies(self@.ports, message));
        }
    }
}

/// Whether some steps of receiving messages follow each other, and no message is added or sent in
/// between.
pub open spec fn tx_run<I, O>(
    ports: Seq<PortView<I, O>>,
    states: Seq<ControlTx>,
    waiting: Seq<Seq<PayloadView>>,
    events: Seq<TxEvent>,
    actions: Seq<TxAction>,
) -> bool {
    &&& states.len() == events.len() + 1
    &&& waiting.len() == events.len() + 1
    &&& actions.len() == events.len()
    &&& forall|i: int|
        #![trigger events[i]]
        0 <= i < events.len() ==> tx_step(
            ports,
            states[i],
            waiting[i],
            events[i],
            actions[i],
            states[i + 1],
            waiting[i + 1],
        )
}

/// The replies to the messages in some buffers, in their order.
pub open spec fn all_replies<I, O>(ports: Seq<PortView<I, O>>, events: Seq<TxEvent>) -> Seq<PayloadView>
    decreases events.len(),
{
    if events.len() == 0 {
        seq![]
    } else {
        let before = all_replies(ports, events.drop_last());
        match received_message(events.last()) {
            Some(message) => before + replies(ports, message),
            None => before,
        }
    }
}

/// Every message of the driver is replied to once, in the order in which the messages came, and
/// behind what waited before.
pub proof fn lemma_replies_in_order<I, O>(
    ports: Seq<PortView<I, O>>,
    states: Seq<ControlTx>,
    waiting: Seq<Seq<PayloadView>>,
    events: Seq<TxEvent>,
    actions: Seq<TxAction>,
)
    requires
        tx_run(ports, states, waiting, events, actions),
    ensures
        waiting.last() == waiting[0] + all_replies(ports, events),
    decreases events.len(),
{
    if events.len() > 0 {
        let last = events.len() - 1;
        assert(tx_step(
            ports,
            states[last],
            waiting[last],
            events[last],
            actions[last],
            states[last + 1],
            waiting[last + 1],
        ));
        assert forall|i: int|
            #![trigger events.drop_last()[i]]
            0 <= i < events.drop_last().len() implies tx_step(
            ports,
            states.drop_last()[i],
            waiting.drop_last()[i],
            events.drop_last()[i],
            actions.drop_last()[i],
            states.drop_last()[i + 1],
            waiting.drop_last()[i + 1],
        ) by {
            assert(events.drop_last()[i] == events[i]);
        }
        lemma_replies_in_order(
            ports,
            states.drop_last(),
            waiting.drop_last(),
            events.drop_last(),
            actions.drop_last(),
        );
        assert(waiting.drop_last().last() == waiting[last]);
        assert(waiting.last() =~= waiting[0] + all_replies(ports, events));
    } else {
        assert(waiting[0] + all_replies(ports, events) =~= waiting[0]);
    }
}

/// A driver that has found the device is told of every port, in the order of their numbers.
pub proof fn lemma_every_port_is_announced<I, O>(
    ports: Seq<PortView<I, O>>,
    message: VirtioConsoleControl,
    port: int,
)
    requires
        message.event == VIRTIO_CONSOLE_DEVICE_READY,
        0 <= port < ports.len() <= u32::MAX,
    ensures
        replies(ports, message).len() == ports.len(),
        replies(ports, message)[port] == PayloadView::ConsoleControl(
            VirtioConsoleControl {
                id: port as u32,
                event: crate::console::control::VIRTIO_CONSOLE_PORT_ADD,
                value: 0,
            },
        ),
{
}

} // verus!
