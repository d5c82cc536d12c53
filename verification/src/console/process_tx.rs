//! The worker that passes what the driver sends to the output of a port.
//!
//! Buffers of the driver lie in the memory of the guest. The worker says what to do with them, one
//! step at a time, and is told what came of it.

use crate::events::token::EventToken;
use crate::virtio::guest_queue::{chain_head_index, TakenBuffer};
use crate::virtio::locked_queue::LockedQueue;
use vm_memory::GuestMemoryMmap;
use vstd::arithmetic::power2::*;
use vstd::prelude::*;

verus! {

/// What wakes up the worker.
#[derive(Debug, Copy, Clone, PartialEq, Eq, Structural)]
pub enum WorkerToken {
    /// The worker has to stop.
    Stop,
    /// The driver kicked the queue.
    ProcessQueue,
    /// The output became writable.
    IO,
}

impl EventToken for WorkerToken {
    const USED_BITS: u32 = 2;

    open spec fn is_token(&self) -> bool {
        true
    }

    open spec fn raw_token(&self) -> u64 {
        match self {
            WorkerToken::Stop => 0,
            WorkerToken::ProcessQueue => 1,
            WorkerToken::IO => 2,
        }
    }

    open spec fn is_raw_token(data: u64) -> bool {
        data % 4 < 3
    }

    open spec fn token_of(data: u64) -> Self {
        if data % 4 == 0 {
            WorkerToken::Stop
        } else if data % 4 == 1 {
            WorkerToken::ProcessQueue
        } else {
            WorkerToken::IO
        }
    }

    proof fn lemma_round_trip(&self) {
        lemma2_to64();
    }

    fn as_raw_token(&self) -> (raw: u64) {
        match self {
            WorkerToken::Stop => 0,
            WorkerToken::ProcessQueue => 1,
            WorkerToken::IO => 2,
        }
    }

    fn from_raw_token(data: u64) -> (token: Self) {
        match data % 4 {
            0 => WorkerToken::Stop,
            1 => WorkerToken::ProcessQueue,
            _ => WorkerToken::IO,
        }
    }
}

/// A buffer of the driver that is being emptied.
#[derive(Debug, Copy, Clone, PartialEq, Eq, Structural)]
pub struct Emptying {
    /// The buffer.
    pub head: u16,
    /// The number of bytes of it that were written.
    pub bytes_written: usize,
}

/// The state of the worker.
#[derive(Debug, Copy, Clone, PartialEq, Eq, Structural)]
pub struct PortTx {
    /// Whether a part of a buffer was written since the driver was last notified.
    pub signal_used_queue: bool,
    /// The buffer that is being emptied.
    pub emptying: Option<Emptying>,
}

/// What became of the next part of a buffer.
#[derive(Debug)]
pub enum PartWritten<E> {
    /// The buffer has no more parts that the device may read.
    NoPart,
    /// So many bytes were written: all of the part, or none.
    Written(usize),
    /// Writing failed.
    Failed(E),
}

/// What happened to the worker.
#[derive(Debug)]
pub enum PortTxEvent<E> {
    /// The worker was started.
    Started,
    /// The worker was woken up.
    Woken(WorkerToken),
    /// The kick was read, and the queue is enabled or not.
    KickRead(bool),
    /// The queue was locked, or is not ready.
    Locked(bool),
    /// The next buffer was taken from the queue, or there is none.
    Popped(Option<u16>),
    /// The next part of the buffer was written to the output.
    PartWritten(PartWritten<E>),
    /// The buffer was given back to the driver.
    UsedAdded,
    /// The buffer was put back into the queue.
    Rewound,
}

/// What the worker does next.
#[derive(Debug, Copy, Clone, PartialEq, Eq, Structural)]
pub enum PortTxAction {
    /// Notify the driver if `signal` is set, and wait to be woken up.
    Wait {
        /// Whether to notify the driver.
        signal: bool,
    },
    /// Read the kick.
    ReadKick,
    /// Lock the queue.
    Lock,
    /// Take the next buffer from the queue.
    Pop,
    /// Write the next part of the buffer to the output.
    WritePart,
    /// Give the buffer back to the driver.
    AddUsed {
        /// The buffer.
        head: u16,
        /// The number of bytes of it that were used.
        len: u32,
    },
    /// Put the buffer back into the queue.
    Rewind,
    /// Stop.
    Finish,
}

impl PortTx {
    /// The state when the worker starts to wait.
    pub open spec fn waiting(self) -> PortTx {
        PortTx { signal_used_queue: false, ..self }
    }

    /// What to do with a buffer when no more of it is written: give it back if something was.
    pub open spec fn emptied(self) -> PortTxAction {
        let emptying = self.emptying->0;
        if emptying.bytes_written == 0 {
            PortTxAction::Rewind
        } else {
            PortTxAction::AddUsed { head: emptying.head, len: emptying.bytes_written as u32 }
        }
    }

    /// The next state and what to do, after an event. An error does not keep the rest of the
    /// buffer from being written.
    pub open spec fn after<E>(self, event: PortTxEvent<E>) -> (PortTx, PortTxAction) {
        match event {
            PortTxEvent::Woken(WorkerToken::Stop) => (self, PortTxAction::Finish),
            PortTxEvent::Woken(_) => (self, PortTxAction::ReadKick),
            PortTxEvent::KickRead(true) => (self, PortTxAction::Lock),
            PortTxEvent::Locked(true) => (self, PortTxAction::Pop),
            PortTxEvent::Started | PortTxEvent::KickRead(false) | PortTxEvent::Locked(false)
            | PortTxEvent::Popped(None) | PortTxEvent::Rewound => (
                self.waiting(),
                PortTxAction::Wait { signal: self.signal_used_queue },
            ),
            PortTxEvent::Popped(Some(head)) => (
                PortTx { emptying: Some(Emptying { head, bytes_written: 0 }), ..self },
                PortTxAction::WritePart,
            ),
            PortTxEvent::PartWritten(PartWritten::NoPart)
            | PortTxEvent::PartWritten(PartWritten::Written(0)) => (
                PortTx { emptying: None, ..self },
                self.emptied(),
            ),
            PortTxEvent::PartWritten(PartWritten::Written(len)) => {
                let emptying = self.emptying->0;
                (
                    PortTx {
                        signal_used_queue: true,
                        emptying: Some(
                            Emptying {
                                bytes_written: (emptying.bytes_written + len) as usize,
                                ..emptying
                            },
                        ),
                    },
                    PortTxAction::WritePart,
                )
            },
            PortTxEvent::PartWritten(PartWritten::Failed(_)) => (self, PortTxAction::WritePart),
            PortTxEvent::UsedAdded => (self, PortTxAction::Pop),
        }
    }

    /// A worker that has written nothing yet.
    pub fn new() -> (tx: PortTx)
        ensures
            tx == (PortTx { signal_used_queue: false, emptying: None }),
    {
        PortTx { signal_used_queue: false, emptying: None }
    }

    /// Goes on after an event. The first event is [`PortTxEvent::Started`].
    pub fn process_tx<E>(&mut self, event: PortTxEvent<E>) -> (action: PortTxAction)
        requires
            event matches PortTxEvent::PartWritten(part) ==> {
                &&& old(self).emptying is Some
                &&& part matches PartWritten::Written(len) ==> old(
                    self,
                ).emptying->0.bytes_written + len <= usize::MAX
            },
        ensures
            (*final(self), action) == old(self).after(event),
    {
        match event {
            PortTxEvent::Started => self.wait(),
            PortTxEvent::Woken(token) => match token {
                WorkerToken::Stop => PortTxAction::Finish,
                WorkerToken::ProcessQueue | WorkerToken::IO => PortTxAction::ReadKick,
            },
            PortTxEvent::KickRead(enabled) => if enabled {
                PortTxAction::Lock
            } else {
                self.wait()
            },
            PortTxEvent::Locked(ready) => if ready {
                PortTxAction::Pop
            } else {
                self.wait()
            },
            PortTxEvent::Rewound => self.wait(),
            PortTxEvent::Popped(Some(head)) => {
                self.emptying = Some(Emptying { head, bytes_written: 0 });
                PortTxAction::WritePart
            },
            PortTxEvent::Popped(None) => self.wait(),
            PortTxEvent::PartWritten(part) => {
                let emptying = self.emptying.unwrap();
                match part {
                    PartWritten::NoPart => self.give_back(emptying),
                    PartWritten::Written(len) => if len == 0 {
                        self.give_back(emptying)
                    } else {
                        self.emptying = Some(
                            Emptying {
                                head: emptying.head,
                                bytes_written: emptying.bytes_written + len,
                            },
                        );
                        self.signal_used_queue = true;
                        PortTxAction::WritePart
                    },
                    PartWritten::Failed(_) => PortTxAction::WritePart,
                }
            },
            PortTxEvent::UsedAdded => PortTxAction::Pop,
        }
    }

    /// Takes the next buffer from the queue, if there is one, as [`PortTxAction::Pop`] asks for, with
    /// the parts of it that the device may read from. Which parts there are rests on the memory of the
    /// guest.
    pub fn take_buffer<'a>(&mut self, queue: &mut LockedQueue, mem: &'a GuestMemoryMmap<()>) -> (taken: (
        PortTxAction,
        Option<TakenBuffer<'a>>,
    ))
        ensures
            taken.1 is Some ==> crate::virtio::guest_queue::can_take_buffer(
                old(queue)@.fields,
                *mem,
            ),
            match taken.1 {
                Some(buffer) => {
                    &&& (*final(self), taken.0) == old(self).after(
                        PortTxEvent::<()>::Popped(
                            Some(crate::virtio::guest_queue::chain_head(buffer.chain)),
                        ),
                    )
                    &&& forall|i: int|
                        0 <= i < buffer.parts@.len() ==> !(#[trigger] buffer.parts@[i]).write_only
                    &&& final(queue)@ == old(queue)@.took(
                        crate::virtio::guest_queue::chain_head(buffer.chain),
                    ).found(crate::virtio::guest_queue::chain_head(buffer.chain), buffer.parts@)
                },
                None => {
                    &&& (*final(self), taken.0) == old(self).after(PortTxEvent::<()>::Popped(None))
                    &&& final(queue)@ == old(queue)@.missed()
                },
            },
    {
        match queue.take_to_read(mem) {
            Some(buffer) => {
                let head: u16 = chain_head_index(&buffer.chain);
                (self.process_tx::<()>(PortTxEvent::Popped(Some(head))), Some(buffer))
            },
            None => (self.process_tx::<()>(PortTxEvent::Popped(None)), None),
        }
    }

    /// Gives a buffer back to the driver, as [`PortTxAction::AddUsed`] asks for, or puts it back into
    /// the queue, as [`PortTxAction::Rewind`] asks for.
    pub fn return_buffer(
        &mut self,
        action: PortTxAction,
        queue: &mut LockedQueue,
        mem: &GuestMemoryMmap<()>,
    ) -> (next: PortTxAction)
        requires
            action is AddUsed || action is Rewind,
        ensures
            action is Rewind ==> {
                &&& (*final(self), next) == old(self).after(PortTxEvent::<()>::Rewound)
                &&& final(queue)@ == old(queue)@.rewound()
            },
            action is AddUsed ==> {
                &&& (*final(self), next) == old(self).after(PortTxEvent::<()>::UsedAdded)
                &&& final(queue)@ == old(queue)@.used(*mem, action->head, action->len)
            },
    {
        if let PortTxAction::AddUsed { head, len } = action {
            // A buffer that cannot be given back is given up.
            let _added = queue.add_used(mem, head, len);
            self.process_tx::<()>(PortTxEvent::UsedAdded)
        } else {
            queue.put_back();
            self.process_tx::<()>(PortTxEvent::Rewound)
        }
    }

    /// Waits, after notifying the driver if a part of a buffer was written.
    fn wait(&mut self) -> (action: PortTxAction)
        ensures
            *final(self) == old(self).waiting(),
            action == (PortTxAction::Wait { signal: old(self).signal_used_queue }),
    {
        let signal: bool = self.signal_used_queue;
        self.signal_used_queue = false;
        PortTxAction::Wait { signal }
    }

    /// Gives a buffer back to the driver, or to the queue if nothing of it was written.
    fn give_back(&mut self, emptying: Emptying) -> (action: PortTxAction)
        requires
            old(self).emptying == Some(emptying),
        ensures
            *final(self) == (PortTx { emptying: None, ..*old(self) }),
            action == old(self).emptied(),
    {
        self.emptying = None;
        if emptying.bytes_written == 0 {
            PortTxAction::Rewind
        } else {
            PortTxAction::AddUsed {
                head: emptying.head,
                len:
                    #[verifier::truncate]
                    (emptying.bytes_written as u32),
            }
        }
    }
}

/// The state after some events.
pub open spec fn after_events<E>(start: PortTx, events: Seq<PortTxEvent<E>>) -> PortTx
    decreases events.len(),
{
    if events.len() == 0 {
        start
    } else {
        after_events(start, events.drop_last()).after(events.last()).0
    }
}

/// The number of bytes of the buffer that some events wrote.
pub open spec fn bytes_of_buffer<E>(events: Seq<PortTxEvent<E>>) -> int
    decreases events.len(),
{
    if events.len() == 0 {
        0
    } else {
        bytes_of_buffer(events.drop_last()) + match events.last() {
            PortTxEvent::PartWritten(PartWritten::Written(len)) => len as int,
            _ => 0,
        }
    }
}

/// Whether all events are about parts of a buffer of which more can be written.
pub open spec fn keeps_writing<E>(events: Seq<PortTxEvent<E>>) -> bool {
    forall|i: int|
        0 <= i < events.len() ==> match #[trigger] events[i] {
            PortTxEvent::PartWritten(PartWritten::Written(len)) => len > 0,
            PortTxEvent::PartWritten(PartWritten::Failed(_)) => true,
            _ => false,
        }
}

/// A buffer goes back to the driver with exactly as many bytes as were written of it, and to the
/// queue if there are none. The driver is notified of it when the worker waits.
pub proof fn lemma_buffer_was_written<E>(start: PortTx, head: u16, events: Seq<PortTxEvent<E>>)
    requires
        keeps_writing(events),
        bytes_of_buffer(events) <= usize::MAX,
    ensures
        ({
            let popped = start.after(PortTxEvent::<E>::Popped(Some(head))).0;
            let emptied = after_events(popped, events);
            let (given_back, action) = emptied.after(
                PortTxEvent::<E>::PartWritten(PartWritten::NoPart),
            );
            &&& action == if bytes_of_buffer(events) == 0 {
                PortTxAction::Rewind
            } else {
                PortTxAction::AddUsed { head, len: bytes_of_buffer(events) as usize as u32 }
            }
            &&& given_back.emptying is None
            &&& bytes_of_buffer(events) > 0 ==> given_back.signal_used_queue
        }),
{
    let popped = start.after(PortTxEvent::<E>::Popped(Some(head))).0;
    lemma_emptying(popped, head, events);
}

proof fn lemma_emptying<E>(popped: PortTx, head: u16, events: Seq<PortTxEvent<E>>)
    requires
        popped.emptying == Some(Emptying { head, bytes_written: 0 }),
        keeps_writing(events),
        bytes_of_buffer(events) <= usize::MAX,
    ensures
        0 <= bytes_of_buffer(events),
        after_events(popped, events).emptying == Some(
            Emptying { head, bytes_written: bytes_of_buffer(events) as usize },
        ),
        bytes_of_buffer(events) > 0 ==> after_events(popped, events).signal_used_queue,
    decreases events.len(),
{
    if events.len() > 0 {
        let last = events.len() - 1;
        assert(events.last() == events[last]);
        assert forall|i: int| 0 <= i < last implies match #[trigger] events.drop_last()[i] {
            PortTxEvent::PartWritten(PartWritten::Written(len)) => len > 0,
            PortTxEvent::PartWritten(PartWritten::Failed(_)) => true,
            _ => false,
        } by {
            assert(events.drop_last()[i] == events[i]);
        }
        lemma_emptying(popped, head, events.drop_last());
    }
}

/// Nothing that was written goes unnoticed: whenever the worker starts to wait after it, the
/// driver is notified, and it is not notified without reason.
pub proof fn lemma_driver_is_notified<E>(state: PortTx, event: PortTxEvent<E>)
    ensures
        state.after(event).1 matches PortTxAction::Wait { signal } ==> {
            &&& signal <==> state.signal_used_queue
            &&& !state.after(event).0.signal_used_queue
        },
{
}

} // verus!
