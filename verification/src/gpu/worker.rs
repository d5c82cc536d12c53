//! The worker of the GPU device.
//!
//! Buffers of the driver lie in the memory of the guest, and the renderer belongs to whoever runs
//! the worker. The worker says what to do with them, one step at a time, and is told what came of
//! it.

use crate::events::token::EventToken;
use crate::gpu::device::GpuError;
use crate::gpu::protocol::{
    process_gpu_command, CtrlHdr, GpuCall, GpuCommand, GpuResponse, MemoryPiece,
    VIRTIO_GPU_FLAG_FENCE,
    VIRTIO_GPU_FLAG_INFO_RING_IDX,
};
use crate::virtio::guest_memory::memory_has_slice;
use crate::virtio::guest_queue::{
    chain_head_index, chain_reader, chain_writer, writer_available_bytes,
};
use crate::virtio::locked_queue::{LockedQueue, NotificationRequest};
use virtio_queue::DescriptorChain;
use virtio_queue::Reader;
use virtio_queue::Writer;
use vm_memory::GuestMemoryMmap;
use vstd::arithmetic::power2::*;
use vstd::prelude::*;

verus! {

/// What wakes up the worker.
#[derive(Debug, Copy, Clone, PartialEq, Eq, Structural)]
pub enum WorkerToken {
    /// The worker has to stop.
    Quit,
    /// The driver kicked the queue for commands.
    ControlQ,
    /// The driver kicked the queue for commands about the cursor.
    CursorQ,
    /// The renderer has something to do.
    Poll,
}

impl EventToken for WorkerToken {
    const USED_BITS: u32 = 2;

    open spec fn is_token(&self) -> bool {
        true
    }

    open spec fn raw_token(&self) -> u64 {
        match self {
            WorkerToken::Quit => 0,
            WorkerToken::ControlQ => 1,
            WorkerToken::CursorQ => 2,
            WorkerToken::Poll => 3,
        }
    }

    open spec fn is_raw_token(data: u64) -> bool {
        true
    }

    open spec fn token_of(data: u64) -> Self {
        if data % 4 == 0 {
            WorkerToken::Quit
        } else if data % 4 == 1 {
            WorkerToken::ControlQ
        } else if data % 4 == 2 {
            WorkerToken::CursorQ
        } else {
            WorkerToken::Poll
        }
    }

    proof fn lemma_round_trip(&self) {
        lemma2_to64();
    }

    fn as_raw_token(&self) -> (raw: u64) {
        match self {
            WorkerToken::Quit => 0,
            WorkerToken::ControlQ => 1,
            WorkerToken::CursorQ => 2,
            WorkerToken::Poll => 3,
        }
    }

    fn from_raw_token(data: u64) -> (token: Self) {
        match data % 4 {
            0 => WorkerToken::Quit,
            1 => WorkerToken::ControlQ,
            2 => WorkerToken::CursorQ,
            _ => WorkerToken::Poll,
        }
    }
}

/// What the worker does about an event.
#[derive(Debug, Copy, Clone, PartialEq, Eq, Structural)]
pub enum WorkerStep {
    /// Stop.
    Quit,
    /// Execute the commands in a queue, the one for the cursor if `cursor` is set.
    HandleQueue {
        /// Whether the queue is the one for the cursor.
        cursor: bool,
    },
    /// Let the renderer do what it has to do.
    PollRenderer,
}

/// The worker of the GPU device.
pub struct GpuWorker<Q> {
    control_queue: Q,
    cursor_queue: Q,
    has_poll_event: bool,
}

impl<Q> GpuWorker<Q> {
    /// The queue for commands.
    pub closed spec fn spec_control_queue(&self) -> Q {
        self.control_queue
    }

    /// The queue for commands about the cursor.
    pub closed spec fn spec_cursor_queue(&self) -> Q {
        self.cursor_queue
    }

    /// Whether the renderer has a descriptor to watch.
    pub closed spec fn spec_has_poll_event(&self) -> bool {
        self.has_poll_event
    }

    /// A worker for the given queues.
    pub fn new(control_queue: Q, cursor_queue: Q, has_poll_event: bool) -> (worker: GpuWorker<Q>)
        ensures
            worker.spec_control_queue() == control_queue,
            worker.spec_cursor_queue() == cursor_queue,
            worker.spec_has_poll_event() == has_poll_event,
    {
        GpuWorker { control_queue, cursor_queue, has_poll_event }
    }

    /// The queue for commands, or the one for commands about the cursor if `cursor` is set.
    pub fn queue(&self, cursor: bool) -> (queue: &Q)
        ensures
            *queue == if cursor {
                self.spec_cursor_queue()
            } else {
                self.spec_control_queue()
            },
    {
        if cursor {
            &self.cursor_queue
        } else {
            &self.control_queue
        }
    }

    /// What the worker watches: the event that stops it, the kicks of both queues, and the
    /// descriptor of the renderer if it has one.
    pub fn watched(&self) -> (tokens: Vec<WorkerToken>)
        ensures
            tokens@ == if self.spec_has_poll_event() {
                seq![
                    WorkerToken::Quit,
                    WorkerToken::ControlQ,
                    WorkerToken::CursorQ,
                    WorkerToken::Poll,
                ]
            } else {
                seq![WorkerToken::Quit, WorkerToken::ControlQ, WorkerToken::CursorQ]
            },
    {
        let mut tokens: Vec<WorkerToken> = Vec::new();
        tokens.push(WorkerToken::Quit);
        tokens.push(WorkerToken::ControlQ);
        tokens.push(WorkerToken::CursorQ);
        if self.has_poll_event {
            tokens.push(WorkerToken::Poll);
        }
        tokens
    }

    /// What the worker does about an event.
    pub fn run(&self, token: WorkerToken) -> (step: WorkerStep)
        ensures
            step == (match token {
                WorkerToken::Quit => WorkerStep::Quit,
                WorkerToken::ControlQ => WorkerStep::HandleQueue { cursor: false },
                WorkerToken::CursorQ => WorkerStep::HandleQueue { cursor: true },
                WorkerToken::Poll => WorkerStep::PollRenderer,
            }),
    {
        match token {
            WorkerToken::Quit => WorkerStep::Quit,
            WorkerToken::ControlQ => WorkerStep::HandleQueue { cursor: false },
            WorkerToken::CursorQ => WorkerStep::HandleQueue { cursor: true },
            WorkerToken::Poll => WorkerStep::PollRenderer,
        }
    }
}

/// What happened while a kick of a queue is handled.
#[derive(Debug)]
pub enum QueueEvent<E> {
    /// The worker was woken up by a kick.
    Started,
    /// The kick was read, and the queue is enabled or not.
    KickRead(Result<bool, E>),
    /// The queue was locked, and uses event indices or not, or it is not ready.
    Locked(Option<bool>),
    /// Kicks were switched off.
    NotificationDisabled,
    /// The commands in the queue were executed, and the driver has to be notified or not.
    Processed(Result<bool, E>),
    /// Kicks were switched on again, and there are new commands in the queue or not.
    NotificationEnabled(bool),
}

/// What to do next about a kick of a queue.
#[derive(Debug)]
pub enum QueueAction<E> {
    /// Read the kick.
    ReadKick,
    /// Lock the queue.
    Lock,
    /// Switch kicks off.
    DisableNotification,
    /// Execute the commands in the queue.
    Process,
    /// Switch kicks on again, after notifying the driver if `signal` is set.
    EnableNotification {
        /// Whether to notify the driver.
        signal: bool,
    },
    /// Stop, after notifying the driver if `signal` is set.
    Finish {
        /// Whether to notify the driver.
        signal: bool,
    },
    /// Fail.
    Fail(E),
}

/// The state of handling a kick of a queue.
#[derive(Debug, Copy, Clone, PartialEq, Eq, Structural)]
pub struct QueueHandler {
    /// Whether the queue uses event indices.
    pub event_idx: bool,
}

impl QueueHandler {
    /// The next state and what to do, after an event.
    ///
    /// With event indices, commands are executed until no new ones are found, because the queue
    /// is looked at only once each time. Without them once is enough. Either way the driver is
    /// notified if a buffer was given back to it.
    pub open spec fn after<E>(self, event: QueueEvent<E>) -> (QueueHandler, QueueAction<E>) {
        match event {
            QueueEvent::Started => (self, QueueAction::ReadKick),
            QueueEvent::KickRead(Err(e)) => (self, QueueAction::Fail(e)),
            QueueEvent::KickRead(Ok(true)) => (self, QueueAction::Lock),
            QueueEvent::KickRead(Ok(false)) | QueueEvent::Locked(None) => (
                self,
                QueueAction::Finish { signal: false },
            ),
            QueueEvent::Locked(Some(event_idx)) => (
                QueueHandler { event_idx },
                if event_idx {
                    QueueAction::DisableNotification
                } else {
                    QueueAction::Process
                },
            ),
            QueueEvent::NotificationDisabled => (self, QueueAction::Process),
            QueueEvent::Processed(Err(e)) => (self, QueueAction::Fail(e)),
            QueueEvent::Processed(Ok(notify)) => (
                self,
                if self.event_idx {
                    QueueAction::EnableNotification { signal: notify }
                } else {
                    QueueAction::Finish { signal: notify }
                },
            ),
            QueueEvent::NotificationEnabled(more) => (
                self,
                if more {
                    QueueAction::DisableNotification
                } else {
                    QueueAction::Finish { signal: false }
                },
            ),
        }
    }

    /// Nothing was done yet.
    pub fn new() -> (handler: QueueHandler)
        ensures
            handler == (QueueHandler { event_idx: false }),
    {
        QueueHandler { event_idx: false }
    }

    /// Goes on after an event. The first event is [`QueueEvent::Started`].
    pub fn handle_queue_event<E>(&mut self, event: QueueEvent<E>) -> (action: QueueAction<E>)
        ensures
            (*final(self), action) == old(self).after(event),
    {
        match event {
            QueueEvent::Started => QueueAction::ReadKick,
            QueueEvent::KickRead(Err(e)) => QueueAction::Fail(e),
            QueueEvent::KickRead(Ok(enabled)) => if enabled {
                QueueAction::Lock
            } else {
                QueueAction::Finish { signal: false }
            },
            QueueEvent::Locked(None) => QueueAction::Finish { signal: false },
            QueueEvent::Locked(Some(event_idx)) => {
                self.event_idx = event_idx;
                if event_idx {
                    QueueAction::DisableNotification
                } else {
                    QueueAction::Process
                }
            },
            QueueEvent::NotificationDisabled => QueueAction::Process,
            QueueEvent::Processed(Err(e)) => QueueAction::Fail(e),
            QueueEvent::Processed(Ok(notify)) => if self.event_idx {
                QueueAction::EnableNotification { signal: notify }
            } else {
                QueueAction::Finish { signal: notify }
            },
            QueueEvent::NotificationEnabled(more) => if more {
                QueueAction::DisableNotification
            } else {
                QueueAction::Finish { signal: false }
            },
        }
    }

    /// Goes on after the queue was locked.
    pub fn queue_locked<E>(&mut self, queue: &LockedQueue) -> (action: QueueAction<E>)
        ensures
            (*final(self), action) == old(self).after(
                QueueEvent::<E>::Locked(
                    Some(queue@.fields.event_idx_enabled),
                ),
            ),
    {
        self.handle_queue_event(QueueEvent::Locked(Some(queue.event_idx_enabled())))
    }

    /// Asks the driver for no notifications, as [`QueueAction::DisableNotification`] asks for. That
    /// cannot fail as long as event indices are in use, and otherwise fails if the used ring is not
    /// in the memory of the guest.
    pub fn disable_notification<E>(&mut self, queue: &mut LockedQueue, mem: &GuestMemoryMmap<()>) -> (
        result: Result<QueueAction<E>, virtio_queue::Error>)
        ensures
            result is Ok <==> old(queue)@.fields.event_idx_enabled
                || crate::virtio::guest_memory::memory_has_u16(
                *mem,
                old(queue)@.fields.used_ring,
            ),
            match result {
                Ok(action) => {
                    &&& (*final(self), action) == old(self).after(
                        QueueEvent::<E>::NotificationDisabled,
                    )
                    &&& final(queue)@ == old(queue)@.asked(NotificationRequest::Disable)
                },
                Err(_) => *final(self) == *old(self) && final(queue)@ == old(queue)@,
            },
    {
        match queue.disable_notification(mem) {
            Ok(()) => Ok(self.handle_queue_event(QueueEvent::NotificationDisabled)),
            Err(e) => Err(e),
        }
    }

    /// Asks the driver for notifications, as [`QueueAction::EnableNotification`] asks for, and goes
    /// on if there are commands already. That fails exactly if a ring of the queue is not in the
    /// memory of the guest where it is written to or read from.
    pub fn enable_notification<E>(&mut self, queue: &mut LockedQueue, mem: &GuestMemoryMmap<()>) -> (
        result: Result<QueueAction<E>, virtio_queue::Error>)
        ensures
            *final(self) == *old(self),
            result is Ok <==> crate::virtio::guest_queue::can_enable_notification(
                old(queue)@.fields,
                *mem,
            ),
            match result {
                Ok(action) => {
                    let request = final(queue)@.record.notifications.last();
                    &&& request matches NotificationRequest::Enable { pending }
                    &&& action == old(self).after(QueueEvent::<E>::NotificationEnabled(pending)).1
                    &&& final(queue)@ == old(queue)@.asked(request)
                },
                Err(_) => final(queue)@ == old(queue)@,
            },
    {
        match queue.enable_notification(mem) {
            Ok(more) => Ok(self.handle_queue_event(QueueEvent::NotificationEnabled(more))),
            Err(e) => Err(e),
        }
    }
}

/// Whether an action notifies the driver.
pub open spec fn notifies_driver<E>(action: QueueAction<E>) -> bool {
    match action {
        QueueAction::EnableNotification { signal } | QueueAction::Finish { signal } => signal,
        _ => false,
    }
}

/// The driver is notified whenever commands were executed and a buffer was given back to it, with
/// event indices and without them, and at no other time.
pub proof fn lemma_driver_is_notified<E>(handler: QueueHandler, event: QueueEvent<E>)
    ensures
        notifies_driver(handler.after(event).1) <==> event == QueueEvent::<E>::Processed(Ok(true)),
{
}

/// What happened while the commands in a queue are executed.
#[derive(Debug)]
pub enum PassEvent<E> {
    /// The queue was locked.
    Started,
    /// The next command was taken from the queue and can be read, and its response written, or
    /// there is none.
    Popped(Result<Option<u16>, GpuError<E>>),
    /// The command was executed, and its buffer was given back to the driver or not.
    Executed(Result<bool, GpuError<E>>),
}

/// What to do next to execute the commands in a queue.
#[derive(Debug)]
pub enum PassAction<E> {
    /// Take the next command from the queue.
    Pop,
    /// Execute the command.
    Execute {
        /// The buffer of the command.
        head: u16,
    },
    /// Stop. The driver has to be notified if `signal_used_queue` is set.
    Finish {
        /// Whether to notify the driver.
        signal_used_queue: bool,
    },
    /// Fail.
    Fail(GpuError<E>),
}

/// The state of executing the commands in a queue.
#[derive(Debug, Copy, Clone, PartialEq, Eq, Structural)]
pub struct QueuePass {
    /// Whether a buffer was given back to the driver.
    pub signal_used_queue: bool,
}

impl QueuePass {
    /// The next state and what to do, after an event.
    pub open spec fn after<E>(self, event: PassEvent<E>) -> (QueuePass, PassAction<E>) {
        match event {
            PassEvent::Started => (self, PassAction::Pop),
            PassEvent::Popped(Err(e)) => (self, PassAction::Fail(e)),
            PassEvent::Popped(Ok(None)) => (
                self,
                PassAction::Finish { signal_used_queue: self.signal_used_queue },
            ),
            PassEvent::Popped(Ok(Some(head))) => (self, PassAction::Execute { head }),
            PassEvent::Executed(Err(e)) => (self, PassAction::Fail(e)),
            PassEvent::Executed(Ok(used)) => (
                QueuePass { signal_used_queue: self.signal_used_queue || used },
                PassAction::Pop,
            ),
        }
    }

    /// No command was executed yet.
    pub fn new() -> (pass: QueuePass)
        ensures
            pass == (QueuePass { signal_used_queue: false }),
    {
        QueuePass { signal_used_queue: false }
    }

    /// Goes on after an event. The first event is [`PassEvent::Started`].
    pub fn process_queue<E>(&mut self, event: PassEvent<E>) -> (action: PassAction<E>)
        ensures
            (*final(self), action) == old(self).after(event),
    {
        match event {
            PassEvent::Started => PassAction::Pop,
            PassEvent::Popped(Err(e)) => PassAction::Fail(e),
            PassEvent::Popped(Ok(None)) => PassAction::Finish {
                signal_used_queue: self.signal_used_queue,
            },
            PassEvent::Popped(Ok(Some(head))) => PassAction::Execute { head },
            PassEvent::Executed(Err(e)) => PassAction::Fail(e),
            PassEvent::Executed(Ok(used)) => {
                self.signal_used_queue = self.signal_used_queue || used;
                PassAction::Pop
            },
        }
    }

    /// Takes the next buffer from the queue, as [`PassAction::Pop`] asks for, or ends the pass if
    /// there is none.
    pub fn take_buffer<'a, E>(&mut self, queue: &mut LockedQueue, mem: &'a GuestMemoryMmap<()>) -> (taken:
        Result<DescriptorChain<&'a GuestMemoryMmap<()>>, PassAction<E>>)
        ensures
            *final(self) == *old(self),
            match taken {
                Ok(chain) => {
                    &&& crate::virtio::guest_queue::can_take_buffer(
                        old(queue)@.fields,
                        *mem,
                    )
                    &&& final(queue)@ == old(queue)@.took(
                        crate::virtio::guest_queue::chain_head(chain),
                    )
                },
                Err(action) => {
                    &&& action == old(self).after(PassEvent::<E>::Popped(Ok(None))).1
                    &&& final(queue)@ == old(queue)@.missed()
                },
            },
    {
        match queue.take(mem) {
            Some(chain) => Ok(chain),
            None => Err(self.process_queue(PassEvent::Popped(Ok(None)))),
        }
    }

    /// Goes on after the part of a buffer that holds the command was opened, or ends the pass if
    /// that failed.
    pub fn reader_opened<R, E>(&mut self, opened: Result<R, E>) -> (result: Result<R, PassAction<E>>)
        ensures
            *final(self) == *old(self),
            match opened {
                Ok(reader) => result == Ok::<R, PassAction<E>>(reader),
                Err(e) => result == Err::<R, PassAction<E>>(
                    old(self).after(PassEvent::Popped(Err(GpuError::CreateReader(e)))).1,
                ),
            },
    {
        match opened {
            Ok(reader) => Ok(reader),
            Err(e) => Err(self.process_queue(PassEvent::Popped(Err(GpuError::CreateReader(e))))),
        }
    }

    /// Goes on after the part of a buffer for the response was opened, or ends the pass if that
    /// failed.
    pub fn writer_opened<W, E>(&mut self, opened: Result<W, E>) -> (result: Result<W, PassAction<E>>)
        ensures
            *final(self) == *old(self),
            match opened {
                Ok(writer) => result == Ok::<W, PassAction<E>>(writer),
                Err(e) => result == Err::<W, PassAction<E>>(
                    old(self).after(PassEvent::Popped(Err(GpuError::CreateWriter(e)))).1,
                ),
            },
    {
        match opened {
            Ok(writer) => Ok(writer),
            Err(e) => Err(self.process_queue(PassEvent::Popped(Err(GpuError::CreateWriter(e))))),
        }
    }

    /// Opens a buffer that was taken for reading the command and for writing the response. Whether
    /// that fails rests on the memory of the guest.
    pub fn open_buffer<'a>(
        &mut self,
        chain: DescriptorChain<&'a GuestMemoryMmap<()>>,
        mem: &'a GuestMemoryMmap<()>,
    ) -> (opened: (PassAction<virtio_queue::Error>, Option<(Reader<'a, ()>, Writer<'a, ()>)>))
        ensures
            *final(self) == *old(self),
            opened.1 is Some ==> opened.0 == (PassAction::<virtio_queue::Error>::Execute {
                head: crate::virtio::guest_queue::chain_head(chain),
            }),
            opened.1 is None ==> {
                &&& opened.0 is Fail
                &&& opened.0->Fail_0 is CreateReader || opened.0->Fail_0 is CreateWriter
            },
    {
        let head: u16 = chain_head_index(&chain);
        let reader = match self.reader_opened(chain_reader(&chain, mem)) {
            Ok(reader) => reader,
            Err(action) => return (action, None),
        };
        let writer = match self.writer_opened(chain_writer(chain, mem)) {
            Ok(writer) => writer,
            Err(action) => return (action, None),
        };
        (self.process_queue(PassEvent::Popped(Ok(Some(head)))), Some((reader, writer)))
    }
}

/// The state after some events.
pub open spec fn pass_after_events<E>(start: QueuePass, events: Seq<PassEvent<E>>) -> QueuePass
    decreases events.len(),
{
    if events.len() == 0 {
        start
    } else {
        pass_after_events(start, events.drop_last()).after(events.last()).0
    }
}

/// The driver is notified exactly if the buffer of some command was given back to it.
pub proof fn lemma_pass_signals_used<E>(start: QueuePass, events: Seq<PassEvent<E>>)
    requires
        !start.signal_used_queue,
    ensures
        pass_after_events(start, events).signal_used_queue <==> exists|i: int|
            0 <= i < events.len() && #[trigger] events[i] == PassEvent::<E>::Executed(Ok(true)),
    decreases events.len(),
{
    if events.len() > 0 {
        let shorter = events.drop_last();
        lemma_pass_signals_used(start, shorter);
        if pass_after_events(start, shorter).signal_used_queue {
            let i = choose|i: int|
                0 <= i < shorter.len() && #[trigger] shorter[i] == PassEvent::<E>::Executed(Ok(true));
            assert(events[i] == PassEvent::<E>::Executed(Ok(true)));
        } else {
            assert forall|i: int| 0 <= i < shorter.len() implies #[trigger] events[i]
                != PassEvent::<E>::Executed(Ok(true)) by {
                assert(shorter[i] == events[i]);
            }
            assert(events[events.len() - 1] == events.last());
        }
    }
}

/// A ring that fences belong to.
#[derive(Debug, Copy, Clone, PartialEq, Eq, Structural)]
pub enum VirtioGpuRing {
    /// The ring of the device.
    Global,
    /// A ring of a context.
    ContextSpecific {
        /// The context.
        ctx_id: u32,
        /// The ring.
        ring_idx: u8,
    },
}

/// A fence.
#[derive(Debug, Copy, Clone, PartialEq, Eq, Structural)]
pub struct Fence {
    /// Flags of the command.
    pub flags: u32,
    /// The fence.
    pub fence_id: u64,
    /// The context of the command.
    pub ctx_id: u32,
    /// The ring of the context.
    pub ring_idx: u8,
}

/// The fence that the response to a command with the given header has to wait for, if there is
/// one.
pub open spec fn fence_of(hdr: Option<CtrlHdr>) -> Option<Fence> {
    match hdr {
        Some(hdr) => if hdr.flags & VIRTIO_GPU_FLAG_FENCE != 0 {
            Some(
                Fence {
                    flags: hdr.flags,
                    fence_id: hdr.fence_id,
                    ctx_id: hdr.ctx_id,
                    ring_idx: hdr.ring_idx,
                },
            )
        } else {
            None
        },
        None => None,
    }
}

/// The ring that a fence belongs to.
pub open spec fn ring_of(fence: Fence) -> VirtioGpuRing {
    if fence.flags & VIRTIO_GPU_FLAG_INFO_RING_IDX == 0 {
        VirtioGpuRing::Global
    } else {
        VirtioGpuRing::ContextSpecific { ctx_id: fence.ctx_id, ring_idx: fence.ring_idx }
    }
}

/// What the header of a response holds: what the header of the command said of the fence, or zeros
/// if there is none.
pub open spec fn response_fence(hdr: Option<CtrlHdr>) -> Fence {
    match fence_of(hdr) {
        Some(fence) => fence,
        None => Fence { flags: 0, fence_id: 0, ctx_id: 0, ring_idx: 0 },
    }
}

/// What happened while a command is executed.
#[derive(Debug)]
pub enum ChainEvent<E> {
    /// The command was read, and `valid` tells for each piece of memory of it whether it is in the
    /// guest.
    Decoded {
        /// The header.
        hdr: CtrlHdr,
        /// The command.
        cmd: GpuCommand,
        /// Which pieces of memory are in the guest.
        valid: Vec<bool>,
    },
    /// The command could not be read.
    NotDecoded,
    /// The renderer has done what it was asked.
    Called(Result<GpuResponse, GpuResponse>),
    /// There is room for so many bytes of a response.
    Room(usize),
    /// The fence was made.
    FenceCreated(Result<(), GpuResponse>),
    /// The response was written, and has so many bytes.
    Encoded(Result<u32, E>),
    /// The renderer was asked about the fence, and the response can be sent or has to wait.
    FenceProcessed(bool),
    /// The buffer was given back to the driver.
    UsedAdded(Result<(), E>),
}

/// What to do next to execute a command.
#[derive(Debug)]
pub enum ChainAction<E> {
    /// Make the first context the current one, and then ask this of the renderer.
    Call(GpuCall),
    /// Make the first context the current one, and then find out how much room there is for a
    /// response.
    RejectAndMeasure,
    /// Find out how much room there is for a response.
    Measure,
    /// Make a fence.
    CreateFence(Fence),
    /// Write the response, with this in its header.
    Encode {
        /// What the header holds.
        fence: Fence,
    },
    /// Ask the renderer about the fence. If it is not ready, the renderer keeps the buffer and the
    /// length of the response.
    ProcessFence {
        /// The ring that the fence belongs to.
        ring: VirtioGpuRing,
        /// The fence.
        fence_id: u64,
        /// The buffer.
        head: u16,
        /// The length of the response.
        len: u32,
    },
    /// Give the buffer back to the driver.
    AddUsed {
        /// The buffer.
        head: u16,
        /// The length of the response.
        len: u32,
    },
    /// Stop. The buffer was given back to the driver, or waits for a fence.
    Finish(Result<bool, GpuError<E>>),
}

/// The state of executing a command.
#[derive(Debug)]
pub struct GpuChain {
    head: u16,
    hdr: Option<CtrlHdr>,
    response: GpuResponse,
    response_len: u32,
}

/// The state of executing a command.
pub struct GpuChainView {
    /// The buffer of the command.
    pub head: u16,
    /// The header of the command, once it was read.
    pub hdr: Option<CtrlHdr>,
    /// The response.
    pub response: GpuResponse,
    /// The length of the response, once it was written.
    pub response_len: u32,
}

/// The response in a result, whichever it is.
pub open spec fn either_response(result: Result<GpuResponse, GpuResponse>) -> GpuResponse {
    match result {
        Ok(response) => response,
        Err(response) => response,
    }
}

impl GpuChainView {
    /// The next state and what to do, after an event.
    ///
    /// Without room for a response the buffer is given back at once. A fence that cannot be made
    /// replaces the response by an error. The response is written even if it has to wait for the
    /// fence.
    pub open spec fn after<E>(self, event: ChainEvent<E>) -> (GpuChainView, ChainAction<E>) {
        match event {
            ChainEvent::Decoded { hdr, cmd, valid } => {
                let read = GpuChainView { hdr: Some(hdr), ..self };
                match crate::gpu::protocol::call_for(hdr, cmd, valid@) {
                    Ok(call) => (read, ChainAction::Call(call)),
                    Err(response) => (
                        GpuChainView { response, ..read },
                        ChainAction::RejectAndMeasure,
                    ),
                }
            },
            ChainEvent::NotDecoded => (self, ChainAction::Measure),
            ChainEvent::Called(result) => (
                GpuChainView { response: either_response(result), ..self },
                ChainAction::Measure,
            ),
            ChainEvent::Room(room) => (
                self,
                if room == 0 {
                    ChainAction::AddUsed { head: self.head, len: 0 }
                } else {
                    match fence_of(self.hdr) {
                        Some(fence) => ChainAction::CreateFence(fence),
                        None => ChainAction::Encode { fence: response_fence(self.hdr) },
                    }
                },
            ),
            ChainEvent::FenceCreated(result) => (
                match result {
                    Ok(_) => self,
                    Err(response) => GpuChainView { response, ..self },
                },
                ChainAction::Encode { fence: response_fence(self.hdr) },
            ),
            ChainEvent::Encoded(Err(e)) => (
                self,
                ChainAction::Finish(Err(GpuError::GpuResponseEncode(e))),
            ),
            ChainEvent::Encoded(Ok(len)) => (
                GpuChainView { response_len: len, ..self },
                match fence_of(self.hdr) {
                    Some(fence) => ChainAction::ProcessFence {
                        ring: ring_of(fence),
                        fence_id: fence.fence_id,
                        head: self.head,
                        len,
                    },
                    None => ChainAction::AddUsed { head: self.head, len },
                },
            ),
            ChainEvent::FenceProcessed(ready) => (
                self,
                if ready {
                    ChainAction::AddUsed { head: self.head, len: self.response_len }
                } else {
                    ChainAction::Finish(Ok(false))
                },
            ),
            ChainEvent::UsedAdded(Ok(_)) => (self, ChainAction::Finish(Ok(true))),
            ChainEvent::UsedAdded(Err(e)) => (
                self,
                ChainAction::Finish(Err(GpuError::QueueAddUsed(e))),
            ),
        }
    }
}

/// For each piece of memory that a command hands over, whether it is in the memory of the guest.
pub open spec fn pieces_held(mem: GuestMemoryMmap<()>, cmd: GpuCommand) -> Seq<bool> {
    match cmd {
        GpuCommand::ResourceAttachBacking { iovecs, .. } => iovecs@.map_values(
            |piece: MemoryPiece|
                crate::virtio::guest_memory::memory_holds(mem, piece.addr, piece.len),
        ),
        _ => seq![],
    }
}

impl View for GpuChain {
    type V = GpuChainView;

    closed spec fn view(&self) -> GpuChainView {
        GpuChainView {
            head: self.head,
            hdr: self.hdr,
            response: self.response,
            response_len: self.response_len,
        }
    }
}

impl GpuChain {
    /// A command in the given buffer, which has to be decoded first.
    pub fn new(head: u16) -> (chain: GpuChain)
        ensures
            chain@ == (GpuChainView {
                head,
                hdr: None,
                response: GpuResponse::ErrUnspec,
                response_len: 0,
            }),
    {
        GpuChain { head, hdr: None, response: GpuResponse::ErrUnspec, response_len: 0 }
    }

    /// The response.
    pub fn response(&self) -> (response: &GpuResponse)
        ensures
            *response == self@.response,
    {
        &self.response
    }

    /// Goes on after an event.
    pub fn process_queue_chain<E>(&mut self, event: ChainEvent<E>) -> (action: ChainAction<E>)
        requires
            event matches ChainEvent::Decoded { cmd, valid, .. } ==> {
                &&& cmd.implemented()
                &&& cmd matches GpuCommand::ResourceAttachBacking { iovecs, .. } ==> valid@.len()
                    == iovecs@.len()
            },
        ensures
            (final(self)@, action) == old(self)@.after(event),
    {
        match event {
            ChainEvent::Decoded { hdr, cmd, valid } => {
                self.hdr = Some(hdr);
                let (_, call) = process_gpu_command(hdr, cmd, valid.as_slice());
                match call {
                    Ok(call) => ChainAction::Call(call),
                    Err(response) => {
                        self.response = response;
                        ChainAction::RejectAndMeasure
                    },
                }
            },
            ChainEvent::NotDecoded => ChainAction::Measure,
            ChainEvent::Called(result) => {
                self.response = match result {
                    Ok(response) => response,
                    Err(response) => response,
                };
                ChainAction::Measure
            },
            ChainEvent::Room(room) => if room == 0 {
                ChainAction::AddUsed { head: self.head, len: 0 }
            } else {
                match self.fence() {
                    Some(fence) => ChainAction::CreateFence(fence),
                    None => ChainAction::Encode { fence: self.response_fence() },
                }
            },
            ChainEvent::FenceCreated(result) => {
                if let Err(response) = result {
                    self.response = response;
                }
                ChainAction::Encode { fence: self.response_fence() }
            },
            ChainEvent::Encoded(Err(e)) => ChainAction::Finish(
                Err(GpuError::GpuResponseEncode(e)),
            ),
            ChainEvent::Encoded(Ok(len)) => {
                self.response_len = len;
                match self.fence() {
                    Some(fence) => {
                        let ring = if fence.flags & VIRTIO_GPU_FLAG_INFO_RING_IDX == 0 {
                            VirtioGpuRing::Global
                        } else {
                            VirtioGpuRing::ContextSpecific {
                                ctx_id: fence.ctx_id,
                                ring_idx: fence.ring_idx,
                            }
                        };
                        ChainAction::ProcessFence {
                            ring,
                            fence_id: fence.fence_id,
                            head: self.head,
                            len,
                        }
                    },
                    None => ChainAction::AddUsed { head: self.head, len },
                }
            },
            ChainEvent::FenceProcessed(ready) => if ready {
                ChainAction::AddUsed { head: self.head, len: self.response_len }
            } else {
                ChainAction::Finish(Ok(false))
            },
            ChainEvent::UsedAdded(Ok(_)) => ChainAction::Finish(Ok(true)),
            ChainEvent::UsedAdded(Err(e)) => ChainAction::Finish(Err(GpuError::QueueAddUsed(e))),
        }
    }

    /// Goes on after the command was decoded. Pieces of memory that a resource is to use have to be
    /// in the memory of the guest.
    pub fn decoded<E>(&mut self, hdr: CtrlHdr, cmd: GpuCommand, mem: &GuestMemoryMmap<()>) -> (
        action: ChainAction<E>)
        requires
            cmd.implemented(),
        ensures
            exists|valid: Vec<bool>|
                valid@ == pieces_held(*mem, cmd) && (final(self)@, action) == (
                #[trigger] old(self)@.after(ChainEvent::<E>::Decoded { hdr, cmd, valid })),
    {
        let mut valid: Vec<bool> = Vec::new();
        if let GpuCommand::ResourceAttachBacking { iovecs, .. } = &cmd {
            let mut i: usize = 0;
            while i < iovecs.len()
                invariant
                    i <= iovecs@.len(),
                    valid@.len() == i,
                    forall|j: int|
                        0 <= j < i ==> #[trigger] valid@[j]
                            == crate::virtio::guest_memory::memory_holds(
                            *mem,
                            iovecs@[j].addr,
                            iovecs@[j].len,
                        ),
                decreases iovecs@.len() - i,
            {
                valid.push(memory_has_slice(mem, iovecs[i].addr, iovecs[i].len));
                i += 1;
            }
        }
        assert(valid@ =~= pieces_held(*mem, cmd));
        let ghost before = self@;
        let ghost held = valid;
        let action = self.process_queue_chain(ChainEvent::Decoded { hdr, cmd, valid });
        assert((self@, action) == before.after(
            ChainEvent::<E>::Decoded { hdr, cmd, valid: held },
        ));
        action
    }

    /// Measures the room for the response, as [`ChainAction::Measure`] asks for.
    pub fn measure<'a, E>(&mut self, writer: &Writer<'a, ()>) -> (action: ChainAction<E>)
        ensures
            (final(self)@, action) == old(self)@.after(
                ChainEvent::<E>::Room(crate::virtio::guest_queue::writer_room(*writer)),
            ),
    {
        self.process_queue_chain(ChainEvent::Room(writer_available_bytes(writer)))
    }

    /// Gives the buffer back to the driver, as [`ChainAction::AddUsed`] asks for. That fails exactly
    /// if the queue has no such buffer or the used ring is not in the memory of the guest.
    pub fn give_back(&mut self, len: u32, queue: &mut LockedQueue, mem: &GuestMemoryMmap<()>) -> (action:
        ChainAction<virtio_queue::Error>)
        ensures
            final(self)@ == old(self)@,
            action is Finish,
            final(queue)@ == old(queue)@.used(*mem, old(self)@.head, len),
            if crate::virtio::guest_queue::can_add_used(
                old(queue)@.fields,
                *mem,
                old(self)@.head,
            ) {
                action == ChainAction::<virtio_queue::Error>::Finish(Ok(true))
            } else {
                action->Finish_0 matches Err(e) && e is QueueAddUsed
            },
    {
        let added = queue.add_used(mem, self.head, len);
        self.process_queue_chain(ChainEvent::UsedAdded(added))
    }

    /// The fence that the response has to wait for.
    fn fence(&self) -> (fence: Option<Fence>)
        ensures
            fence == fence_of(self@.hdr),
    {
        match self.hdr {
            Some(hdr) => if hdr.flags & VIRTIO_GPU_FLAG_FENCE != 0 {
                Some(
                    Fence {
                        flags: hdr.flags,
                        fence_id: hdr.fence_id,
                        ctx_id: hdr.ctx_id,
                        ring_idx: hdr.ring_idx,
                    },
                )
            } else {
                None
            },
            None => None,
        }
    }

    /// What the header of the response holds.
    fn response_fence(&self) -> (fence: Fence)
        ensures
            fence == response_fence(self@.hdr),
    {
        match self.fence() {
            Some(fence) => fence,
            None => Fence { flags: 0, fence_id: 0, ctx_id: 0, ring_idx: 0 },
        }
    }
}

/// A command is over with its buffer given back only when the buffer was given back, and with its
/// buffer kept only when its fence is not ready.
pub proof fn lemma_buffer_is_given_back_or_waits<E>(chain: GpuChainView, event: ChainEvent<E>)
    ensures
        chain.after(event).1 == ChainAction::<E>::Finish(Ok(true)) ==> event is UsedAdded,
        chain.after(event).1 == ChainAction::<E>::Finish(Ok(false)) ==> event
            == ChainEvent::<E>::FenceProcessed(false),
{
}

/// Only a command that asks for a fence waits for one, and its response tells of the same fence. A
/// response without a fence tells of none.
pub proof fn lemma_fence_only_if_asked<E>(chain: GpuChainView, event: ChainEvent<E>)
    requires
        !(event is Decoded),
    ensures
        ({
            let action = chain.after(event).1;
            &&& action is CreateFence || action is ProcessFence ==> fence_of(chain.hdr) is Some
            &&& action matches ChainAction::CreateFence(fence) ==> fence == response_fence(
                chain.hdr,
            )
            &&& action matches ChainAction::Encode { fence } ==> fence == response_fence(chain.hdr)
            &&& fence_of(chain.hdr) is None ==> response_fence(chain.hdr).flags == 0
        }),
{
}

} // verus!
