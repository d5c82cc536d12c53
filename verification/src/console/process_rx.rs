//! The worker that passes the input of a port to the driver.
//!
//! Buffers of the driver lie in the memory of the guest. The worker says what to do with them, one
//! step at a time, and is told what came of it.

use crate::events::token::EventToken;
use crate::virtio::guest_queue::{chain_head_index, TakenBuffer};
use crate::virtio::locked_queue::LockedQueue;
use vm_memory::GuestMemoryMmap;
use vstd::arithmetic::power2::*;
use vstd::prelude::*;

verus! {

/// What wakes up the worker.
#[derive(Debug, Copy, Clone, PartialEq, Eq, Structural)]
pub enum WorkerToken {
    /// The driver kicked the queue.
    ProcessQueue,
    /// The input became readable.
    IO,
    /// The worker has to stop.
    Stop,
}

impl EventToken for WorkerToken {
    const USED_BITS: u32 = 2;

    open spec fn is_token(&self) -> bool {
        true
    }

    open spec fn raw_token(&self) -> u64 {
        match self {
            WorkerToken::ProcessQueue => 0,
            WorkerToken::IO => 1,
            WorkerToken::Stop => 2,
        }
    }

    open spec fn is_raw_token(data: u64) -> bool {
        data % 4 < 3
    }

    open spec fn token_of(data: u64) -> Self {
        if data % 4 == 0 {
            WorkerToken::ProcessQueue
        } else if data % 4 == 1 {
            WorkerToken::IO
        } else {
            WorkerToken::Stop
        }
    }

    proof fn lemma_round_trip(&self) {
        lemma2_to64();
    }

    fn as_raw_token(&self) -> (raw: u64) {
        match self {
            WorkerToken::ProcessQueue => 0,
            WorkerToken::IO => 1,
            WorkerToken::Stop => 2,
        }
    }

    fn from_raw_token(data: u64) -> (token: Self) {
        match data % 4 {
            0 => WorkerToken::ProcessQueue,
            1 => WorkerToken::IO,
            _ => WorkerToken::Stop,
        }
    }
}

/// A buffer of the driver that is being filled.
#[derive(Debug, Copy, Clone, PartialEq, Eq, Structural)]
pub struct Filling {
    /// The buffer.
    pub head: u16,
    /// The number of bytes in it.
    pub bytes_read: usize,
}

/// The state of the worker.
#[derive(Debug, Copy, Clone, PartialEq, Eq, Structural)]
pub struct PortRx {
    /// Whether the end of the input was reached.
    pub eof: bool,
    /// Whether input was put into a buffer since the driver was last notified.
    pub signal_used_queue: bool,
    /// The buffer that is being filled.
    pub filling: Option<Filling>,
}

/// What became of the next part of a buffer.
#[derive(Debug)]
pub enum PartRead<E> {
    /// The buffer has no more parts that the device may write to.
    NoPart,
    /// So many bytes were read into the part.
    Read(usize),
    /// Reading failed.
    Failed(E),
}

/// What happened to the worker.
#[derive(Debug)]
pub enum PortRxEvent<E> {
    /// The worker was started.
    Started,
    /// The worker was woken up.
    Woken(WorkerToken),
    /// The kick was read, and the queue is enabled or not.
    KickRead(bool),
    /// The queue was locked, or is not ready.
    Locked(bool),
    /// The next buffer was taken from the queue, or there is none.
    Popped(Option<u16>),
    /// The input was read into the next part of the buffer, and `eof` tells whether that hit the
    /// end of the input.
    PartRead {
        /// What became of the part.
        part: PartRead<E>,
        /// Whether the end of the input was reached.
        eof: bool,
    },
    /// The buffer was given back to the driver.
    UsedAdded,
    /// The buffer was put back into the queue.
    Rewound,
}

/// What the worker does next.
#[derive(Debug, Copy, Clone, PartialEq, Eq, Structural)]
pub enum PortRxAction {
    /// Notify the driver so many times and wait to be woken up.
    Wait {
        /// How often to notify the driver.
        signals: usize,
    },
    /// Read the kick.
    ReadKick,
    /// Lock the queue.
    Lock,
    /// Take the next buffer from the queue.
    Pop,
    /// Read input into the next part of the buffer.
    ReadPart,
    /// Give the buffer back to the driver.
    AddUsed {
        /// The buffer.
        head: u16,
        /// The number of bytes in it.
        len: u32,
    },
    /// Put the buffer back into the queue.
    Rewind,
    /// Tell the driver that the port was closed, and stop.
    Close,
    /// Stop.
    Finish,
}

impl PortRx {
    /// The state when the worker starts to wait.
    pub open spec fn waiting(self) -> PortRx {
        PortRx { signal_used_queue: false, ..self }
    }

    /// How often the driver is notified before the worker waits.
    pub open spec fn pending_signals(self) -> int {
        if self.signal_used_queue {
            1
        } else {
            0
        }
    }

    /// What to do with a buffer when no more is read into it: give it back if there is something
    /// in it.
    pub open spec fn filled(self) -> PortRxAction {
        let filling = self.filling->0;
        if filling.bytes_read == 0 {
            PortRxAction::Rewind
        } else {
            PortRxAction::AddUsed { head: filling.head, len: filling.bytes_read as u32 }
        }
    }

    /// The next state and what to do, after an event.
    ///
    /// An error, unlike input that is not there yet, does not keep the rest of the buffer from
    /// being filled. When the queue is used up the driver is notified at once, and again before
    /// the worker waits.
    pub open spec fn after<E>(self, event: PortRxEvent<E>) -> (PortRx, PortRxAction) {
        match event {
            PortRxEvent::Started => (self.waiting(), PortRxAction::Wait { signals: 0 }),
            PortRxEvent::Woken(WorkerToken::Stop) => (self, PortRxAction::Finish),
            PortRxEvent::Woken(_) => (self, PortRxAction::ReadKick),
            PortRxEvent::KickRead(true) => (self, PortRxAction::Lock),
            PortRxEvent::Locked(true) => (self, PortRxAction::Pop),
            PortRxEvent::KickRead(false) | PortRxEvent::Locked(false) | PortRxEvent::Rewound => (
                self.waiting(),
                PortRxAction::Wait { signals: self.pending_signals() as usize },
            ),
            PortRxEvent::Popped(None) => (
                self.waiting(),
                PortRxAction::Wait { signals: (2 * self.pending_signals()) as usize },
            ),
            PortRxEvent::Popped(Some(head)) => (
                PortRx { filling: Some(Filling { head, bytes_read: 0 }), ..self },
                PortRxAction::ReadPart,
            ),
            PortRxEvent::PartRead { part, eof } => {
                let seen = PortRx { eof: self.eof || eof, ..self };
                let filling = self.filling->0;
                match part {
                    PartRead::NoPart | PartRead::Read(0) => (
                        PortRx { filling: None, ..seen },
                        self.filled(),
                    ),
                    PartRead::Read(len) => (
                        PortRx {
                            signal_used_queue: true,
                            filling: Some(
                                Filling {
                                    bytes_read: (filling.bytes_read + len) as usize,
                                    ..filling
                                },
                            ),
                            ..seen
                        },
                        PortRxAction::ReadPart,
                    ),
                    PartRead::Failed(_) => (seen, PortRxAction::ReadPart),
                }
            },
            PortRxEvent::UsedAdded => (
                self,
                if self.eof {
                    PortRxAction::Close
                } else {
                    PortRxAction::Pop
                },
            ),
        }
    }

    /// A worker that has read nothing yet.
    pub fn new() -> (rx: PortRx)
        ensures
            rx == (PortRx { eof: false, signal_used_queue: false, filling: None }),
    {
        PortRx { eof: false, signal_used_queue: false, filling: None }
    }

    /// Goes on after an event. The first event is [`PortRxEvent::Started`].
    pub fn process_rx<E>(&mut self, event: PortRxEvent<E>) -> (action: PortRxAction)
        requires
            event is Started ==> !old(self).signal_used_queue,
            event matches PortRxEvent::PartRead { part, .. } ==> {
                &&& old(self).filling is Some
                &&& part matches PartRead::Read(len) ==> old(self).filling->0.bytes_read + len
                    <= usize::MAX
            },
        ensures
            (*final(self), action) == old(self).after(event),
    {
        match event {
            PortRxEvent::Started => PortRxAction::Wait { signals: 0 },
            PortRxEvent::Woken(token) => match token {
                WorkerToken::Stop => PortRxAction::Finish,
                WorkerToken::ProcessQueue | WorkerToken::IO => PortRxAction::ReadKick,
            },
            PortRxEvent::KickRead(enabled) => if enabled {
                PortRxAction::Lock
            } else {
                self.wait()
            },
            PortRxEvent::Locked(ready) => if ready {
                PortRxAction::Pop
            } else {
                self.wait()
            },
            PortRxEvent::Rewound => self.wait(),
            PortRxEvent::Popped(Some(head)) => {
                self.filling = Some(Filling { head, bytes_read: 0 });
                PortRxAction::ReadPart
            },
            PortRxEvent::Popped(None) => if self.signal_used_queue {
                self.signal_used_queue = false;
                PortRxAction::Wait { signals: 2 }
            } else {
                PortRxAction::Wait { signals: 0 }
            },
            PortRxEvent::PartRead { part, eof } => {
                if eof {
                    self.eof = true;
                }
                let filling = self.filling.unwrap();
                match part {
                    PartRead::NoPart => self.give_back(filling),
                    PartRead::Read(len) => if len == 0 {
                        self.give_back(filling)
                    } else {
                        self.filling = Some(
                            Filling { head: filling.head, bytes_read: filling.bytes_read + len },
                        );
                        self.signal_used_queue = true;
                        PortRxAction::ReadPart
                    },
                    PartRead::Failed(_) => PortRxAction::ReadPart,
                }
            },
            PortRxEvent::UsedAdded => if self.eof {
                PortRxAction::Close
            } else {
                PortRxAction::Pop
            },
        }
    }

    /// Takes the next buffer from the queue, if there is one, as [`PortRxAction::Pop`] asks for, with
    /// the parts of it that the device may write to. Which parts there are rests on the memory of the
    /// guest.
    pub fn take_buffer<'a>(&mut self, queue: &mut LockedQueue, mem: &'a GuestMemoryMmap<()>) -> (taken: (
        PortRxAction,
        Option<TakenBuffer<'a>>,
    ))
        ensures
            taken.1 is Some ==> crate::virtio::guest_queue::can_take_buffer(
                old(queue)@.fields,
                *mem,
            ),
            match taken.1 {
                Some(buffer) => {
                    &&& (*final(self), taken.0) == old(self).after(
                        PortRxEvent::<()>::Popped(
                            Some(crate::virtio::guest_queue::chain_head(buffer.chain)),
                        ),
                    )
                    &&& forall|i: int|
                        0 <= i < buffer.parts@.len() ==> (#[trigger] buffer.parts@[i]).write_only
                    &&& final(queue)@ == old(queue)@.took(
                        crate::virtio::guest_queue::chain_head(buffer.chain),
                    ).found(crate::virtio::guest_queue::chain_head(buffer.chain), buffer.parts@)
                },
                None => {
                    &&& (*final(self), taken.0) == old(self).after(PortRxEvent::<()>::Popped(None))
                    &&& final(queue)@ == old(queue)@.missed()
                },
            },
    {
        match queue.take_to_write(mem) {
            Some(buffer) => {
                let head: u16 = chain_head_index(&buffer.chain);
                (self.process_rx::<()>(PortRxEvent::Popped(Some(head))), Some(buffer))
            },
            None => (self.process_rx::<()>(PortRxEvent::Popped(None)), None),
        }
    }

    /// Gives a buffer back to the driver, as [`PortRxAction::AddUsed`] asks for, or puts it back into
    /// the queue, as [`PortRxAction::Rewind`] asks for.
    pub fn return_buffer(
        &mut self,
        action: PortRxAction,
        queue: &mut LockedQueue,
        mem: &GuestMemoryMmap<()>,
    ) -> (next: PortRxAction)
        requires
            action is AddUsed || action is Rewind,
        ensures
            action is Rewind ==> {
                &&& (*final(self), next) == old(self).after(PortRxEvent::<()>::Rewound)
                &&& final(queue)@ == old(queue)@.rewound()
            },
            action is AddUsed ==> {
                &&& (*final(self), next) == old(self).after(PortRxEvent::<()>::UsedAdded)
                &&& final(queue)@ == old(queue)@.used(*mem, action->head, action->len)
            },
    {
        if let PortRxAction::AddUsed { head, len } = action {
            // A buffer that cannot be given back is given up.
            let _added = queue.add_used(mem, head, len);
            self.process_rx::<()>(PortRxEvent::UsedAdded)
        } else {
            queue.put_back();
            self.process_rx::<()>(PortRxEvent::Rewound)
        }
    }

    /// Waits, after notifying the driver if something was put into a buffer.
    fn wait(&mut self) -> (action: PortRxAction)
        ensures
            *final(self) == old(self).waiting(),
            action == (PortRxAction::Wait { signals: old(self).pending_signals() as usize }),
    {
        if self.signal_used_queue {
            self.signal_used_queue = false;
            PortRxAction::Wait { signals: 1 }
        } else {
            PortRxAction::Wait { signals: 0 }
        }
    }

    /// Gives a buffer back to the driver, or to the queue if nothing is in it.
    fn give_back(&mut self, filling: Filling) -> (action: PortRxAction)
        requires
            old(self).filling == Some(filling),
        ensures
            *final(self) == (PortRx { filling: None, ..*old(self) }),
            action == old(self).filled(),
    {
        self.filling = None;
        if filling.bytes_read == 0 {
            PortRxAction::Rewind
        } else {
            PortRxAction::AddUsed {
                head: filling.head,
                len:
                    #[verifier::truncate]
                    (filling.bytes_read as u32),
            }
        }
    }
}

/// The state after some events.
pub open spec fn after_events<E>(start: PortRx, events: Seq<PortRxEvent<E>>) -> PortRx
    decreases events.len(),
{
    if events.len() == 0 {
        start
    } else {
        after_events(start, events.drop_last()).after(events.last()).0
    }
}

/// The number of bytes that some events put into the buffer.
pub open spec fn bytes_in_buffer<E>(events: Seq<PortRxEvent<E>>) -> int
    decreases events.len(),
{
    if events.len() == 0 {
        0
    } else {
        bytes_in_buffer(events.drop_last()) + match events.last() {
            PortRxEvent::PartRead { part: PartRead::Read(len), .. } => len as int,
            _ => 0,
        }
    }
}

/// Whether all events are about parts of a buffer into which more can be read.
pub open spec fn keeps_reading<E>(events: Seq<PortRxEvent<E>>) -> bool {
    forall|i: int|
        0 <= i < events.len() ==> match #[trigger] events[i] {
            PortRxEvent::PartRead { part: PartRead::Read(len), .. } => len > 0,
            PortRxEvent::PartRead { part: PartRead::Failed(_), .. } => true,
            _ => false,
        }
}

/// A buffer goes back to the driver with exactly as many bytes as were read into it, and to the
/// queue if there are none. The driver is notified of it when the worker waits.
pub proof fn lemma_buffer_holds_what_was_read<E>(
    start: PortRx,
    head: u16,
    events: Seq<PortRxEvent<E>>,
    eof: bool,
)
    requires
        keeps_reading(events),
        bytes_in_buffer(events) <= usize::MAX,
    ensures
        ({
            let popped = start.after(PortRxEvent::<E>::Popped(Some(head))).0;
            let filled = after_events(popped, events);
            let (given_back, action) = filled.after(
                PortRxEvent::<E>::PartRead { part: PartRead::NoPart, eof },
            );
            &&& action == if bytes_in_buffer(events) == 0 {
                PortRxAction::Rewind
            } else {
                PortRxAction::AddUsed { head, len: bytes_in_buffer(events) as usize as u32 }
            }
            &&& given_back.filling is None
            &&& bytes_in_buffer(events) > 0 ==> given_back.signal_used_queue
        }),
{
    let popped = start.after(PortRxEvent::<E>::Popped(Some(head))).0;
    lemma_filling(popped, head, events);
}

proof fn lemma_filling<E>(popped: PortRx, head: u16, events: Seq<PortRxEvent<E>>)
    requires
        popped.filling == Some(Filling { head, bytes_read: 0 }),
        keeps_reading(events),
        bytes_in_buffer(events) <= usize::MAX,
    ensures
        0 <= bytes_in_buffer(events),
        after_events(popped, events).filling == Some(
            Filling { head, bytes_read: bytes_in_buffer(events) as usize },
        ),
        bytes_in_buffer(events) > 0 ==> after_events(popped, events).signal_used_queue,
    decreases events.len(),
{
    if events.len() > 0 {
        let last = events.len() - 1;
        assert(events.last() == events[last]);
        assert forall|i: int| 0 <= i < last implies match #[trigger] events.drop_last()[i] {
            PortRxEvent::PartRead { part: PartRead::Read(len), .. } => len > 0,
            PortRxEvent::PartRead { part: PartRead::Failed(_), .. } => true,
            _ => false,
        } by {
            assert(events.drop_last()[i] == events[i]);
        }
        lemma_filling(popped, head, events.drop_last());
    }
}

/// Nothing that was put into a buffer goes unnoticed: whenever the worker starts to wait after it,
/// the driver is notified, and it is not notified without reason.
pub proof fn lemma_driver_is_notified<E>(state: PortRx, event: PortRxEvent<E>)
    requires
        event is Started ==> !state.signal_used_queue,
    ensures
        state.after(event).1 matches PortRxAction::Wait { signals } ==> {
            &&& signals > 0 <==> state.signal_used_queue
            &&& !state.after(event).0.signal_used_queue
        },
{
}

} // verus!
