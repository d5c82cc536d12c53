//! State of a virtqueue that is shared with a vhost-user front-end.
//!
//! A ring refers to its event descriptors by number. The epoll instances that watch its kick
//! descriptor are held through weak handles of the type `W`: whoever owns the instances says for
//! each handle, in the order of [`Vring::epolls`], whether its instance still exists and which
//! descriptor it has.

use crate::virtio::device_queue::{DeviceQueue, KickRead};
use crate::events::manager::{ControlOperation, EpollEvent, EpollRequest, EventSource};
use crate::events::set::event_in;
use crate::virtio::guest_queue::queue_used_idx;
use crate::virtio::queue_args::QueueArgs;
use crate::virtio::virtqueue::{
    queue_new, queue_ready, queue_set_ready, queue_try_set_avail_ring, queue_try_set_desc_table,
    queue_try_set_used_ring, QueueFields, VirtQueueError,
};
use virtio_queue::Queue;
use vm_memory::GuestMemoryMmap;
use vstd::prelude::*;

verus! {

/// An epoll instance that watches the kick descriptor of a ring.
pub struct EpollEntry<W> {
    /// Handle of the instance.
    pub epoll: W,
    /// The data that the instance reports for a kick.
    pub token: u64,
}

/// A change to one of the epoll instances that watch a kick descriptor.
#[derive(Debug, Clone, Copy, PartialEq, Eq, Structural)]
pub struct KickUpdate {
    /// Position of the instance in [`Vring::epolls`].
    pub entry: usize,
    /// The change to ask for.
    pub request: EpollRequest,
}

/// The change that makes an instance report a kick as `token`.
pub open spec fn kick_registration(fd: i32, token: u64) -> EpollRequest {
    EpollRequest {
        operation: ControlOperation::Add,
        fd,
        event: EpollEvent { events: crate::events::set::EVENT_IN, data: token },
    }
}

/// The change that makes an instance forget about a kick descriptor.
pub open spec fn kick_removal(fd: i32) -> EpollRequest {
    EpollRequest {
        operation: ControlOperation::Delete,
        fd,
        event: EpollEvent { events: crate::events::set::EVENT_IN, data: 0 },
    }
}

fn register_kick(kick_fd: i32, token: u64) -> (request: EpollRequest)
    ensures
        request == kick_registration(kick_fd, token),
{
    EpollRequest {
        operation: ControlOperation::Add,
        fd: kick_fd,
        event: EpollEvent { events: event_in(), data: token },
    }
}

fn unregister_kick(kick_fd: i32) -> (request: EpollRequest)
    ensures
        request == kick_removal(kick_fd),
{
    EpollRequest {
        operation: ControlOperation::Delete,
        fd: kick_fd,
        event: EpollEvent { events: event_in(), data: 0 },
    }
}

/// The changes for one instance when the kick descriptor changes.
pub open spec fn entry_updates(
    entry: usize,
    token: u64,
    old_kick: Option<i32>,
    new_kick: Option<i32>,
) -> Seq<KickUpdate> {
    let removed = match old_kick {
        Some(fd) => seq![KickUpdate { entry, request: kick_removal(fd) }],
        None => seq![],
    };
    let added = match new_kick {
        Some(fd) => seq![KickUpdate { entry, request: kick_registration(fd, token) }],
        None => seq![],
    };
    removed + added
}

/// The changes for all instances that still exist, in their order.
pub open spec fn kick_updates<W>(
    epolls: Seq<EpollEntry<W>>,
    live: Seq<Option<i32>>,
    old_kick: Option<i32>,
    new_kick: Option<i32>,
) -> Seq<KickUpdate>
    decreases epolls.len(),
{
    if epolls.len() == 0 {
        seq![]
    } else {
        let last = epolls.len() - 1;
        let before = kick_updates(epolls.drop_last(), live, old_kick, new_kick);
        if live[last] is Some {
            before + entry_updates(last as usize, epolls[last].token, old_kick, new_kick)
        } else {
            before
        }
    }
}

/// The entries whose instance still exists and has another descriptor than `without`, in their
/// order.
pub open spec fn retained_entries<W>(
    epolls: Seq<EpollEntry<W>>,
    live: Seq<Option<i32>>,
    without: Option<i32>,
) -> Seq<EpollEntry<W>>
    decreases epolls.len(),
{
    if epolls.len() == 0 {
        seq![]
    } else {
        let last = epolls.len() - 1;
        let before = retained_entries(epolls.drop_last(), live, without);
        if live[last] is Some && live[last] != without {
            before.push(epolls[last])
        } else {
            before
        }
    }
}

/// The state of a ring.
#[verifier::ext_equal]
pub struct VringView<W> {
    /// What the queue holds. The ring is started when the queue is ready.
    pub queue: QueueFields,
    /// Whether the front-end lets the device process the ring.
    pub enabled: bool,
    /// The descriptor through which the driver kicks the device.
    pub kick: Option<i32>,
    /// The descriptor through which the device calls the driver.
    pub call: Option<i32>,
    /// The descriptor through which the device signals errors.
    pub err: Option<i32>,
    /// The epoll instances that watch the kick descriptor.
    pub epolls: Seq<EpollEntry<W>>,
    /// The indices of the used ring that were read from the memory of the guest, in order.
    pub used_indices: Seq<u16>,
}

impl<W> VringView<W> {
    /// The state of a ring that was just made.
    pub open spec fn fresh(max_size: u16) -> VringView<W> {
        VringView {
            queue: crate::virtio::virtqueue::new_queue_fields(max_size),
            enabled: false,
            kick: None,
            call: None,
            err: None,
            epolls: seq![],
            used_indices: seq![],
        }
    }

    /// The ring with another state of its queue.
    pub open spec fn with_queue(self, queue: QueueFields) -> VringView<W> {
        VringView { queue, ..self }
    }

    /// The ring, enabled or disabled.
    pub open spec fn with_enabled(self, enabled: bool) -> VringView<W> {
        VringView { enabled, ..self }
    }

    /// The ring, started or stopped.
    pub open spec fn with_ready(self, ready: bool) -> VringView<W> {
        VringView { queue: QueueFields { ready, ..self.queue }, ..self }
    }

    /// The ring after an index of the used ring was read from the memory of the guest.
    pub open spec fn with_used_index(self, index: u16) -> VringView<W> {
        VringView { used_indices: self.used_indices.push(index), ..self }
    }

    /// The ring with another kick descriptor.
    pub open spec fn with_kick(self, kick: Option<i32>) -> VringView<W> {
        VringView { kick, ..self }
    }

    /// The ring with another call descriptor.
    pub open spec fn with_call(self, call: Option<i32>) -> VringView<W> {
        VringView { call, ..self }
    }

    /// The ring with another error descriptor.
    pub open spec fn with_err(self, err: Option<i32>) -> VringView<W> {
        VringView { err, ..self }
    }

    /// Whether the device may process the ring.
    pub open spec fn processable(self) -> bool {
        self.enabled && self.queue.ready
    }

    /// The changes for the watching instances when the ring stops.
    pub open spec fn stop_updates(self, live: Seq<Option<i32>>) -> Seq<KickUpdate> {
        match self.kick {
            Some(fd) => kick_updates(self.epolls, live, Some(fd), None),
            None => seq![],
        }
    }

    /// The changes for the watching instances when the kick descriptor is replaced.
    pub open spec fn kick_change_updates(self, live: Seq<Option<i32>>, kick: Option<i32>) -> Seq<
        KickUpdate,
    > {
        if self.queue.ready {
            kick_updates(self.epolls, live, self.kick, kick)
        } else {
            seq![]
        }
    }

    /// The ring with the addresses of its parts, which are taken over up to the first that is not
    /// aligned as it has to be.
    pub open spec fn with_queue_info(
        self,
        desc_table: u64,
        avail_ring: u64,
        used_ring: u64,
    ) -> VringView<W> {
        if desc_table % 16 != 0 {
            self
        } else if avail_ring % 2 != 0 {
            self.with_queue(QueueFields { desc_table, ..self.queue })
        } else if used_ring % 4 != 0 {
            self.with_queue(QueueFields { desc_table, avail_ring, ..self.queue })
        } else {
            self.with_queue(QueueFields { desc_table, avail_ring, used_ring, ..self.queue })
        }
    }
}

/// Whether the parts of a queue may lie at the given addresses, and if not, why.
pub open spec fn queue_info_check(desc_table: u64, avail_ring: u64, used_ring: u64) -> Result<
    (),
    VirtQueueError,
> {
    if desc_table % 16 != 0 {
        Err(VirtQueueError::InvalidDescTableAlign)
    } else if avail_ring % 2 != 0 {
        Err(VirtQueueError::InvalidAvailRingAlign)
    } else if used_ring % 4 != 0 {
        Err(VirtQueueError::InvalidUsedRingAlign)
    } else {
        Ok(())
    }
}

/// Maintains the state of a virtqueue and what is needed for notifications about it.
pub struct Vring<W> {
    queue: Queue,
    enabled: bool,
    kick: Option<i32>,
    call: Option<i32>,
    err: Option<i32>,
    epolls: Vec<EpollEntry<W>>,
    used_indices: Ghost<Seq<u16>>,
}

impl<W> View for Vring<W> {
    type V = VringView<W>;

    closed spec fn view(&self) -> VringView<W> {
        VringView {
            queue: crate::virtio::virtqueue::queue_fields(self.queue),
            enabled: self.enabled,
            kick: self.kick,
            call: self.call,
            err: self.err,
            epolls: self.epolls@,
            used_indices: self.used_indices@,
        }
    }
}

impl<W> Vring<W> {
    /// The queue of the ring.
    pub closed spec fn spec_queue(&self) -> Queue {
        self.queue
    }

    /// A stopped and disabled ring.
    pub fn new(queue_args: &QueueArgs) -> (result: Result<Vring<W>, VirtQueueError>)
        ensures
            match result {
                Ok(vring) => {
                    &&& crate::virtio::virtqueue::is_queue_size(queue_args.spec_max_size())
                    &&& vring@ == VringView::<W>::fresh(queue_args.spec_max_size())
                },
                Err(e) => {
                    &&& !crate::virtio::virtqueue::is_queue_size(queue_args.spec_max_size())
                    &&& e == VirtQueueError::InvalidMaxSize
                },
            },
    {
        match queue_new(queue_args.max_size()) {
            Ok(queue) => Ok(
                Vring {
                    queue,
                    enabled: false,
                    kick: None,
                    call: None,
                    err: None,
                    epolls: Vec::new(),
                    used_indices: Ghost(Seq::empty()),
                },
            ),
            Err(_) => Err(VirtQueueError::InvalidMaxSize),
        }
    }

    /// The queue of the ring, to be changed.
    pub fn queue_mut(&mut self) -> (queue: &mut Queue)
        ensures
            *queue == old(self).spec_queue(),
            final(self).spec_queue() == *final(queue),
            crate::virtio::virtqueue::queue_fields(*queue) == old(self)@.queue,
            final(self)@ == old(self)@.with_queue(crate::virtio::virtqueue::queue_fields(*final(queue))),
    {
        &mut self.queue
    }

    /// Reads the index of the used ring, which rests on the memory of the guest. That fails exactly if
    /// the index is not in the memory.
    pub fn read_used_idx(&mut self, mem: &GuestMemoryMmap<()>) -> (result: Result<
        u16,
        virtio_queue::Error,
    >)
        ensures
            result is Ok <==> crate::virtio::guest_queue::has_used_idx(old(self)@.queue, *mem),
            final(self)@ == match result {
                Ok(index) => old(self)@.with_used_index(index),
                Err(_) => old(self)@,
            },
    {
        match queue_used_idx(&self.queue, mem) {
            Ok(index) => {
                self.used_indices = Ghost(self.used_indices@.push(index));
                Ok(index)
            },
            Err(e) => Err(e),
        }
    }

    /// Sets the guest addresses of the descriptor table, the available ring and the used ring.
    pub fn set_queue_info(&mut self, desc_table: u64, avail_ring: u64, used_ring: u64) -> (result:
        Result<(), VirtQueueError>)
        ensures
            final(self)@ == old(self)@.with_queue_info(desc_table, avail_ring, used_ring),
            result == queue_info_check(desc_table, avail_ring, used_ring),
    {
        if queue_try_set_desc_table(&mut self.queue, desc_table).is_err() {
            return Err(VirtQueueError::InvalidDescTableAlign);
        }
        if queue_try_set_avail_ring(&mut self.queue, avail_ring).is_err() {
            return Err(VirtQueueError::InvalidAvailRingAlign);
        }
        if queue_try_set_used_ring(&mut self.queue, used_ring).is_err() {
            return Err(VirtQueueError::InvalidUsedRingAlign);
        }
        Ok(())
    }

    /// Whether the front-end lets the device process the ring.
    pub fn is_enabled(&self) -> (enabled: bool)
        ensures
            enabled == self@.enabled,
    {
        self.enabled
    }

    /// Enables or disables the ring.
    pub fn set_enabled(&mut self, enabled: bool)
        ensures
            final(self)@ == old(self)@.with_enabled(enabled),
    {
        self.enabled = enabled;
    }

    /// The changes to make before [`Vring::stop`], so that no instance reports kicks any more.
    pub fn stop_updates(&self, live: &[Option<i32>]) -> (updates: Vec<KickUpdate>)
        requires
            live@.len() == self@.epolls.len(),
        ensures
            updates@ == self@.stop_updates(live@),
    {
        match self.kick {
            Some(fd) => self.update_epolls(live, Some(fd), None),
            None => Vec::new(),
        }
    }

    /// Stops processing the ring, once the changes of [`Vring::stop_updates`] were made. If they
    /// could not be made the ring goes on.
    pub fn stop<E>(&mut self, updated: Result<(), E>) -> (result: Result<(), E>)
        ensures
            result == updated,
            final(self)@ == if updated is Ok {
                old(self)@.with_ready(false)
            } else {
                old(self)@
            },
    {
        if updated.is_ok() {
            queue_set_ready(&mut self.queue, false);
        }
        updated
    }

    /// Starts processing the ring. The changes that come back make the watching instances report
    /// kicks.
    pub fn start(&mut self, live: &[Option<i32>]) -> (updates: Vec<KickUpdate>)
        requires
            live@.len() == old(self)@.epolls.len(),
        ensures
            final(self)@ == old(self)@.with_ready(true),
            updates@ == kick_updates(old(self)@.epolls, live@, None, old(self)@.kick),
    {
        queue_set_ready(&mut self.queue, true);
        self.update_epolls(live, None, self.kick)
    }

    /// Whether the ring is being processed.
    pub fn is_started(&self) -> (started: bool)
        ensures
            started == self@.queue.ready,
    {
        queue_ready(&self.queue)
    }

    /// Replaces the descriptor through which the driver is called.
    pub fn set_call(&mut self, fd: Option<i32>)
        ensures
            final(self)@ == old(self)@.with_call(fd),
    {
        self.call = fd;
    }

    /// The changes for all watching instances that still exist when the kick descriptor changes.
    pub fn update_epolls(
        &self,
        live: &[Option<i32>],
        old_kick_fd: Option<i32>,
        new_kick_fd: Option<i32>,
    ) -> (updates: Vec<KickUpdate>)
        requires
            live@.len() == self@.epolls.len(),
        ensures
            updates@ == kick_updates(self@.epolls, live@, old_kick_fd, new_kick_fd),
    {
        let mut updates: Vec<KickUpdate> = Vec::new();
        let mut i: usize = 0;
        while i < self.epolls.len()
            invariant
                live@.len() == self.epolls@.len(),
                i <= self.epolls@.len(),
                updates@ == kick_updates(
                    self.epolls@.take(i as int),
                    live@,
                    old_kick_fd,
                    new_kick_fd,
                ),
            decreases self.epolls@.len() - i,
        {
            proof {
                assert(self.epolls@.take(i + 1).drop_last() =~= self.epolls@.take(i as int));
                assert(self.epolls@.take(i + 1)[i as int] == self.epolls@[i as int]);
            }
            if live[i].is_some() {
                if let Some(fd) = old_kick_fd {
                    updates.push(KickUpdate { entry: i, request: unregister_kick(fd) });
                }
                if let Some(fd) = new_kick_fd {
                    let token: u64 = self.epolls[i].token;
                    updates.push(KickUpdate { entry: i, request: register_kick(fd, token) });
                }
            }
            i += 1;
        }
        assert(self.epolls@.take(i as int) =~= self.epolls@);
        updates
    }

    /// Replaces the kick descriptor. If the ring is started, the changes that come back make the
    /// watching instances follow.
    pub fn set_kick(&mut self, fd: Option<i32>, live: &[Option<i32>]) -> (updates: Vec<KickUpdate>)
        requires
            live@.len() == old(self)@.epolls.len(),
        ensures
            final(self)@ == old(self)@.with_kick(fd),
            updates@ == old(self)@.kick_change_updates(live@, fd),
    {
        let old_kick_fd: Option<i32> = self.kick;
        self.kick = fd;
        if self.is_started() {
            self.update_epolls(live, old_kick_fd, fd)
        } else {
            Vec::new()
        }
    }

    /// Replaces the descriptor through which errors are signalled.
    pub fn set_err(&mut self, fd: Option<i32>)
        ensures
            final(self)@ == old(self)@.with_err(fd),
    {
        self.err = fd;
    }

    /// The error descriptor.
    pub fn err(&self) -> (fd: Option<i32>)
        ensures
            fd == self@.err,
    {
        self.err
    }

    /// Whether the ring has a kick descriptor.
    pub fn has_kick_event(&self) -> (has: bool)
        ensures
            has == self@.kick is Some,
    {
        self.kick.is_some()
    }

    /// The kick descriptor, to be read before [`DeviceQueue::read_kick`].
    pub fn kick(&self) -> (fd: Option<i32>)
        ensures
            fd == self@.kick,
    {
        self.kick
    }

    /// The epoll instances that watch the kick descriptor.
    pub fn epolls(&self) -> (epolls: &[EpollEntry<W>])
        ensures
            epolls@ == self@.epolls,
    {
        self.epolls.as_slice()
    }

    /// Remembers an instance that watches the kick descriptor, and forgets those that exist no
    /// more.
    pub fn add_epoll(&mut self, epoll: W, token: u64, live: &[Option<i32>])
        requires
            live@.len() == old(self)@.epolls.len(),
        ensures
            final(self)@ == (VringView {
                epolls: retained_entries(old(self)@.epolls, live@, None).push(EpollEntry { epoll, token }),
                ..old(self)@
            }),
    {
        self.retain_epolls(live, None);
        self.epolls.push(EpollEntry { epoll, token });
    }

    /// Forgets the instance with the descriptor `fd`, and those that exist no more.
    pub fn remove_epoll(&mut self, fd: i32, live: &[Option<i32>])
        requires
            live@.len() == old(self)@.epolls.len(),
        ensures
            final(self)@ == (VringView {
                epolls: retained_entries(old(self)@.epolls, live@, Some(fd)),
                ..old(self)@
            }),
    {
        self.retain_epolls(live, Some(fd));
    }

    /// Forgets the instances that exist no more, and the one with the descriptor `without`.
    fn retain_epolls(&mut self, live: &[Option<i32>], without: Option<i32>)
        requires
            live@.len() == old(self).epolls@.len(),
        ensures
            final(self).queue == old(self).queue,
            final(self).enabled == old(self).enabled,
            final(self).kick == old(self).kick,
            final(self).call == old(self).call,
            final(self).err == old(self).err,
            final(self).used_indices == old(self).used_indices,
            final(self).epolls@ == retained_entries(old(self).epolls@, live@, without),
    {
        let mut kept: Vec<EpollEntry<W>> = Vec::new();
        let mut rest: Vec<EpollEntry<W>> = Vec::new();
        std::mem::swap(&mut rest, &mut self.epolls);
        let ghost all = rest@;
        let mut i: usize = 0;
        while i < live.len()
            invariant
                i <= live@.len(),
                live@.len() == all.len(),
                rest@ == all.skip(i as int),
                kept@ == retained_entries(all.take(i as int), live@, without),
            decreases live@.len() - i,
        {
            proof {
                assert(all.take(i + 1).drop_last() =~= all.take(i as int));
                assert(all.take(i + 1)[i as int] == all[i as int]);
            }
            let entry = rest.remove(0);
            assert(rest@ =~= all.skip(i + 1));
            let keep: bool = match live[i] {
                None => false,
                Some(fd) => match without {
                    None => true,
                    Some(without) => fd != without,
                },
            };
            if keep {
                kept.push(entry);
            }
            i += 1;
        }
        assert(all.take(i as int) =~= all);
        self.epolls = kept;
    }

    /// Takes note of what came of registering the kick with an instance: if that succeeded, the
    /// instance is remembered.
    pub fn registered<E>(
        &mut self,
        outcome: Result<(), E>,
        epoll: W,
        token: u64,
        live: &[Option<i32>],
    ) -> (result: Result<(), E>)
        requires
            live@.len() == old(self)@.epolls.len(),
        ensures
            result == outcome,
            final(self)@ == if outcome is Ok {
                VringView {
                    epolls: retained_entries(old(self)@.epolls, live@, None).push(
                        EpollEntry { epoll, token },
                    ),
                    ..old(self)@
                }
            } else {
                old(self)@
            },
    {
        if outcome.is_ok() {
            self.add_epoll(epoll, token, live);
        }
        outcome
    }

    /// Provides the kick as a source of events.
    pub fn kick_event(&self) -> (event: VhostKickEvent<'_, W>)
        ensures
            event.spec_vring() == *self,
    {
        VhostKickEvent { vring: self }
    }
}

impl<W> DeviceQueue for Vring<W> {
    open spec fn processable(&self) -> bool {
        self@.processable()
    }

    open spec fn enabled(&self) -> bool {
        self@.enabled
    }

    open spec fn call_fd(&self) -> Option<i32> {
        self@.call
    }

    closed spec fn queue(&self) -> Queue {
        self.queue
    }

    fn try_lock_queue(&mut self) -> (queue: Option<&mut Queue>)
        ensures
            queue matches Some(q) ==> final(self)@ == old(self)@.with_queue(
                crate::virtio::virtqueue::queue_fields(*final(q)),
            ),
    {
        if self.enabled && queue_ready(&self.queue) {
            Some(&mut self.queue)
        } else {
            None
        }
    }

    fn signal_used_queue(&self) -> (fd: Option<i32>) {
        self.call
    }

    fn read_kick<E>(&self, kick: KickRead<E>) -> (result: Result<bool, E>) {
        match kick {
            KickRead::Failed(e) => Err(e),
            _ => Ok(self.enabled),
        }
    }
}

/// A kick of a ring, as a source of events. There is nothing to ask of an instance as long as the
/// ring has no kick descriptor. What came of registering the kick goes to [`Vring::registered`], and
/// [`Vring::remove_epoll`] comes before removing it.
pub struct VhostKickEvent<'a, W> {
    vring: &'a Vring<W>,
}

impl<'a, W> VhostKickEvent<'a, W> {
    /// The ring whose kick this is.
    pub closed spec fn spec_vring(&self) -> Vring<W> {
        *self.vring
    }
}

impl<'a, W> EventSource for VhostKickEvent<'a, W> {
    open spec fn registration(&self, token: u64) -> Option<EpollRequest> {
        match self.spec_vring()@.kick {
            Some(fd) => Some(kick_registration(fd, token)),
            None => None,
        }
    }

    open spec fn removal(&self) -> Option<EpollRequest> {
        match self.spec_vring()@.kick {
            Some(fd) => Some(kick_removal(fd)),
            None => None,
        }
    }

    fn register_self(&self, token: u64) -> (request: Option<EpollRequest>) {
        match self.vring.kick {
            Some(fd) => Some(register_kick(fd, token)),
            None => None,
        }
    }

    fn unregister_self(&self) -> (request: Option<EpollRequest>) {
        match self.vring.kick {
            Some(fd) => Some(unregister_kick(fd)),
            None => None,
        }
    }
}

/// Only instances that still exist are changed.
pub proof fn lemma_updates_address_live_entries<W>(
    epolls: Seq<EpollEntry<W>>,
    live: Seq<Option<i32>>,
    old_kick: Option<i32>,
    new_kick: Option<i32>,
    i: int,
)
    requires
        epolls.len() == live.len(),
        epolls.len() <= usize::MAX,
        0 <= i < kick_updates(epolls, live, old_kick, new_kick).len(),
    ensures
        kick_updates(epolls, live, old_kick, new_kick)[i].entry < epolls.len(),
        live[kick_updates(epolls, live, old_kick, new_kick)[i].entry as int] is Some,
{
    lemma_updates_address_live_prefix(epolls, live, old_kick, new_kick, i);
}

proof fn lemma_updates_address_live_prefix<W>(
    epolls: Seq<EpollEntry<W>>,
    live: Seq<Option<i32>>,
    old_kick: Option<i32>,
    new_kick: Option<i32>,
    i: int,
)
    requires
        epolls.len() <= live.len(),
        epolls.len() <= usize::MAX,
        0 <= i < kick_updates(epolls, live, old_kick, new_kick).len(),
    ensures
        kick_updates(epolls, live, old_kick, new_kick)[i].entry < epolls.len(),
        live[kick_updates(epolls, live, old_kick, new_kick)[i].entry as int] is Some,
    decreases epolls.len(),
{
    let before = kick_updates(epolls.drop_last(), live, old_kick, new_kick);
    if i < before.len() {
        lemma_updates_address_live_prefix(epolls.drop_last(), live, old_kick, new_kick, i);
    }
}

/// Stopping a ring removes its kick descriptor from exactly those instances to which starting it
/// added the descriptor, as long as the same instances exist.
pub proof fn lemma_stop_removes_what_start_adds<W>(ring: VringView<W>, live: Seq<Option<i32>>)
    requires
        ring.epolls.len() == live.len(),
    ensures
        ({
            let added = kick_updates(ring.epolls, live, None, ring.kick);
            let removed = ring.with_ready(true).stop_updates(live);
            &&& added.len() == removed.len()
            &&& forall|i: int|
                0 <= i < added.len() ==> {
                    &&& (#[trigger] removed[i]).entry == added[i].entry
                    &&& removed[i].request.fd == added[i].request.fd
                    &&& added[i].request.operation == ControlOperation::Add
                    &&& removed[i].request.operation == ControlOperation::Delete
                }
        }),
{
    match ring.kick {
        None => {
            lemma_no_kick_no_updates(ring.epolls, live);
        },
        Some(fd) => {
            lemma_added_and_removed(ring.epolls, live, fd);
        },
    }
}

proof fn lemma_no_kick_no_updates<W>(epolls: Seq<EpollEntry<W>>, live: Seq<Option<i32>>)
    ensures
        kick_updates(epolls, live, None, None).len() == 0,
    decreases epolls.len(),
{
    if epolls.len() > 0 {
        lemma_no_kick_no_updates(epolls.drop_last(), live);
    }
}

proof fn lemma_added_and_removed<W>(epolls: Seq<EpollEntry<W>>, live: Seq<Option<i32>>, fd: i32)
    ensures
        kick_updates(epolls, live, None, Some(fd)).len() == kick_updates(
            epolls,
            live,
            Some(fd),
            None,
        ).len(),
        forall|i: int|
            0 <= i < kick_updates(epolls, live, None, Some(fd)).len() ==> {
                let added = kick_updates(epolls, live, None, Some(fd))[i];
                let removed = #[trigger] kick_updates(epolls, live, Some(fd), None)[i];
                &&& removed.entry == added.entry
                &&& removed.request == kick_removal(fd)
                &&& added.request.fd == fd
                &&& added.request.operation == ControlOperation::Add
            },
    decreases epolls.len(),
{
    if epolls.len() > 0 {
        lemma_added_and_removed(epolls.drop_last(), live, fd);
    }
}

/// A ring that was stopped, or that is disabled, cannot be processed, and one that is enabled and
/// started can.
pub proof fn lemma_processable<W>(ring: VringView<W>)
    ensures
        !ring.with_ready(false).processable(),
        !ring.with_enabled(false).processable(),
        ring.with_enabled(true).with_ready(true).processable(),
{
}

} // verus!
