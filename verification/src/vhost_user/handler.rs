//! The back-end's answers to the requests of a vhost-user front-end.
//!
//! Whatever a request needs from the system (mapping a region of guest memory, changing an epoll
//! instance) is done by the caller, who hands the outcome to the handler or gets back what to do.

use crate::vhost_user::backend::VhostUserDevice;
use crate::vhost_user::state::{HandlerState, RefusedOperation, VhostUserError, VringState};
use crate::vhost_user::memory_map::{AddrMapping, MappedRegion, MemoryFault, MemoryRegion};
use crate::virtio::guest_memory::{
    memory_from_regions, memory_insert_region, memory_remove_region, region_new,
};
use crate::virtio::queue_args::QueueArgs;
use crate::vhost_user::features::{
    protocol_features_bit, protocol_reply_ack, protocol_shared_object, ring_f_event_idx,
};
use crate::virtio::virtqueue::{
    queue_next_avail, queue_set_event_idx, queue_set_next_avail, queue_set_next_used,
    queue_set_size, QueueFields, VirtQueueError,
};
use crate::vhost_user::vring::{KickUpdate, Vring, VringView};
use std::collections::BTreeMap;
use vm_memory::GuestMemoryMmap;
use vm_memory::GuestRegionMmap;
use vstd::prelude::*;

verus! {

/// The number of memory slots that vhost in the kernel usually supports. It used to be a limit of
/// KVM, which supported 512 and used 3 for internal purposes.
pub const MAX_MEM_SLOTS: u64 = 509;

/// Why a handler could not be made, or an address not be translated.
#[derive(Debug, Clone, Copy, PartialEq, Eq, Structural)]
pub enum VhostUserHandlerError {
    /// Failed to create a ring.
    CreateVring(VirtQueueError),
    /// Could not find the mapping from memory regions.
    MissingMemoryMapping,
}

/// What to set on a channel for requests of the back-end.
#[derive(Debug, Clone, Copy, PartialEq, Eq, Structural)]
pub struct BackendFlags {
    /// Requests ask for a reply.
    pub reply_ack: bool,
    /// Shared objects may be used.
    pub shared_object: bool,
}

/// What came of a request about a ring.
pub struct VringOutcome<R> {
    /// The changes to make to the epoll instances that watch the kick of the ring.
    pub updates: Vec<KickUpdate>,
    /// The answer to the request.
    pub result: Result<R, VhostUserError>,
}

/// Serves one device to a vhost-user front-end.
pub struct VhostUserHandler<T: VhostUserDevice, W> {
    device: T,
    device_activated: bool,
    memory_updated: bool,
    requested_queues: Vec<QueueArgs>,
    owned: bool,
    features_acked: bool,
    acked_features: u64,
    acked_protocol_features: u64,
    mappings: Vec<AddrMapping>,
    vrings: Vec<Vring<W>>,
    uffd: bool,
}

impl<T: VhostUserDevice, W> View for VhostUserHandler<T, W> {
    type V = HandlerState<W>;

    closed spec fn view(&self) -> HandlerState<W> {
        HandlerState {
            device_activated: self.device_activated,
            memory_updated: self.memory_updated,
            requested_queues: self.requested_queues@,
            owned: self.owned,
            features_acked: self.features_acked,
            acked_features: self.acked_features,
            acked_protocol_features: self.acked_protocol_features,
            mappings: self.mappings@,
            vrings: crate::vhost_user::state::vring_views(self.vrings@),
            uffd: self.uffd,
        }
    }
}

/// Whether the first error among `results` is the one at `index`, and is `error`.
pub open spec fn first_error<B, E>(results: Seq<Result<B, E>>, index: int, error: E) -> bool {
    &&& 0 <= index < results.len()
    &&& results[index] == Err::<B, E>(error)
    &&& forall|i: int| 0 <= i < index ==> (#[trigger] results[i]) is Ok
}

/// Enables all rings.
fn enable_vrings<W>(vrings: &mut Vec<Vring<W>>)
    ensures
        crate::vhost_user::state::vring_views(final(vrings)@) == crate::vhost_user::state::vring_views(old(vrings)@).map_values(
            |ring: VringView<W>| ring.with_enabled(true),
        ),
{
    let ghost before = vrings@;
    let mut i: usize = 0;
    while i < vrings.len()
        invariant
            i <= vrings@.len(),
            vrings@.len() == before.len(),
            forall|j: int| 0 <= j < i ==> (#[trigger] vrings@[j])@ == before[j]@.with_enabled(true),
            forall|j: int| i <= j < vrings@.len() ==> #[trigger] vrings@[j] == before[j],
        decreases vrings@.len() - i,
    {
        vrings[i].set_enabled(true);
        i += 1;
    }
}

/// Switches event indices in all rings.
fn set_event_idx<W>(vrings: &mut Vec<Vring<W>>, enabled: bool)
    ensures
        crate::vhost_user::state::vring_views(final(vrings)@) == crate::vhost_user::state::vring_views(old(vrings)@).map_values(
            |ring: VringView<W>|
                ring.with_queue(QueueFields { event_idx_enabled: enabled, ..ring.queue }),
        ),
{
    let ghost before = vrings@;
    let mut i: usize = 0;
    while i < vrings.len()
        invariant
            i <= vrings@.len(),
            vrings@.len() == before.len(),
            forall|j: int|
                0 <= j < i ==> (#[trigger] vrings@[j])@ == before[j]@.with_queue(
                    QueueFields { event_idx_enabled: enabled, ..before[j]@.queue },
                ),
            forall|j: int| i <= j < vrings@.len() ==> #[trigger] vrings@[j] == before[j],
        decreases vrings@.len() - i,
    {
        queue_set_event_idx(vrings[i].queue_mut(), enabled);
        i += 1;
    }
}

/// Disables and stops all rings. What comes back has to be done for each of them.
fn stop_vrings<W>(vrings: &mut Vec<Vring<W>>, live: &[Vec<Option<i32>>]) -> (updates: Vec<
    Vec<KickUpdate>,
>)
    requires
        live@.len() == old(vrings)@.len(),
        forall|i: int|
            0 <= i < live@.len() ==> (#[trigger] live@[i])@.len() == old(vrings)@[i]@.epolls.len(),
    ensures
        crate::vhost_user::state::vring_views(final(vrings)@) == crate::vhost_user::state::vring_views(old(vrings)@).map_values(
            |ring: VringView<W>| ring.with_enabled(false).with_ready(false),
        ),
        updates@.len() == old(vrings)@.len(),
        forall|i: int|
            0 <= i < updates@.len() ==> (#[trigger] updates@[i])@ == old(
                vrings,
            )@[i]@.stop_updates(live@[i]@),
{
    let ghost before = vrings@;
    let mut updates: Vec<Vec<KickUpdate>> = Vec::new();
    let mut i: usize = 0;
    while i < vrings.len()
        invariant
            i <= vrings@.len(),
            vrings@.len() == before.len(),
            live@.len() == before.len(),
            forall|j: int|
                0 <= j < live@.len() ==> (#[trigger] live@[j])@.len() == before[j]@.epolls.len(),
            forall|j: int|
                0 <= j < i ==> (#[trigger] vrings@[j])@ == before[j]@.with_enabled(
                    false,
                ).with_ready(false),
            forall|j: int| i <= j < vrings@.len() ==> #[trigger] vrings@[j] == before[j],
            updates@.len() == i,
            forall|j: int|
                0 <= j < i ==> (#[trigger] updates@[j])@ == before[j]@.stop_updates(live@[j]@),
        decreases vrings@.len() - i,
    {
        assert(live@[i as int]@.len() == before[i as int]@.epolls.len());
        vrings[i].set_enabled(false);
        let stopping = vrings[i].stop_updates(live[i].as_slice());
        let stopped: Result<(), ()> = vrings[i].stop(Ok(()));
        updates.push(stopping);
        i += 1;
    }
    updates
}

/// Numbers handles in their order.
fn number_handles<Q>(handles: Vec<Q>) -> (map: BTreeMap<usize, Q>)
    ensures
        map@ == crate::vhost_user::state::numbered(handles@),
{
    let ghost all = handles@;
    let count: usize = handles.len();
    let mut rest = handles;
    let mut map: BTreeMap<usize, Q> = BTreeMap::new();
    assert(all.take(rest@.len() as int) =~= all);
    while rest.len() > 0
        invariant
            rest@ == all.take(rest@.len() as int),
            rest@.len() <= all.len() == count,
            map@ == crate::vhost_user::state::numbered(all).remove_keys(
                Set::new(|k: usize| k < rest@.len()),
            ),
        decreases rest@.len(),
    {
        if let Some(handle) = rest.pop() {
            let index: usize = rest.len();
            map.insert(index, handle);
        }
    }
    map
}

impl<T: VhostUserDevice, W> VhostUserHandler<T, W> {
    /// The device that is served.
    pub closed spec fn spec_device(&self) -> T {
        self.device
    }

    /// Holds of every handler: there is a ring for each queue of the device, addresses can be
    /// translated without overflow, and what was negotiated is available.
    pub open spec fn inv(&self) -> bool {
        &&& self.spec_device().inv()
        &&& self@.requested_queues == self.spec_device().spec_queues()
        &&& crate::vhost_user::state::rings_offer(self@.vrings, self@.requested_queues)
        &&& crate::vhost_user::memory_map::mappings_valid(self@.mappings)
        &&& self@.acked_features & !self.spec_device().spec_avail_features() == 0
    }

    /// A handler for the device, with a ring for each of its queues.
    pub fn new(device: T) -> (result: Result<Self, VhostUserHandlerError>)
        requires
            device.inv(),
        ensures
            match result {
                Ok(handler) => {
                    &&& handler.inv()
                    &&& handler.spec_device() == device
                    &&& forall|i: int|
                        0 <= i < device.spec_queues().len() ==> crate::virtio::virtqueue::is_queue_size(
                            (#[trigger] device.spec_queues()[i]).spec_max_size(),
                        )
                    &&& handler@ == (HandlerState {
                        device_activated: false,
                        memory_updated: false,
                        requested_queues: device.spec_queues(),
                        owned: false,
                        features_acked: false,
                        acked_features: 0,
                        acked_protocol_features: 0,
                        mappings: seq![],
                        vrings: device.spec_queues().map_values(
                            |args: QueueArgs| VringView::<W>::fresh(args.spec_max_size()),
                        ),
                        uffd: false,
                    })
                },
                Err(e) => {
                    &&& e == VhostUserHandlerError::CreateVring(VirtQueueError::InvalidMaxSize)
                    &&& exists|i: int|
                        0 <= i < device.spec_queues().len() && !crate::virtio::virtqueue::is_queue_size(
                            (#[trigger] device.spec_queues()[i]).spec_max_size(),
                        )
                },
            },
    {
        let requested_queues = device.queues();
        let mut vrings: Vec<Vring<W>> = Vec::new();
        let mut i: usize = 0;
        while i < requested_queues.len()
            invariant
                requested_queues@ == device.spec_queues(),
                i <= requested_queues@.len(),
                vrings@.len() == i,
                forall|j: int|
                    0 <= j < i ==> (#[trigger] vrings@[j])@ == VringView::<W>::fresh(
                        requested_queues@[j].spec_max_size(),
                    ),
                forall|j: int|
                    0 <= j < i ==> crate::virtio::virtqueue::is_queue_size(
                        (#[trigger] requested_queues@[j]).spec_max_size(),
                    ),
            decreases requested_queues@.len() - i,
        {
            match Vring::new(&requested_queues[i]) {
                Ok(vring) => {
                    vrings.push(vring);
                },
                Err(e) => {
                    return Err(VhostUserHandlerError::CreateVring(e));
                },
            }
            i += 1;
        }
        proof {
            let available = device.spec_avail_features();
            assert(0u64 & !available == 0) by (bit_vector);
        }
        Ok(
            VhostUserHandler {
                device,
                device_activated: false,
                memory_updated: false,
                requested_queues,
                owned: false,
                features_acked: false,
                acked_features: 0,
                acked_protocol_features: 0,
                mappings: Vec::new(),
                vrings,
                uffd: false,
            },
        )
    }

    /// The device that is served.
    pub fn device(&self) -> (device: &T)
        ensures
            *device == self.spec_device(),
    {
        &self.device
    }

    /// The device that is served, to take its workers out of it.
    pub fn device_mut(&mut self) -> (device: &mut T)
        requires
            old(self).inv(),
        ensures
            *device == old(self).spec_device(),
            final(self).spec_device() == *final(device),
            final(self)@ == old(self)@,
            ({
                &&& final(device).inv()
                &&& final(device).spec_queues() == device.spec_queues()
                &&& final(device).spec_avail_features() == device.spec_avail_features()
            }) ==> final(self).inv(),
    {
        &mut self.device
    }

    /// One of the rings.
    pub fn vring(&self, index: usize) -> (vring: Option<&Vring<W>>)
        ensures
            match vring {
                Some(vring) => index < self@.vrings.len() && vring@ == self@.vrings[index as int],
                None => index >= self@.vrings.len(),
            },
    {
        if index < self.vrings.len() {
            Some(&self.vrings[index])
        } else {
            None
        }
    }

    /// One of the rings, to be processed by the device.
    pub fn vring_mut(&mut self, index: usize) -> (vring: Option<&mut Vring<W>>)
        requires
            old(self).inv(),
        ensures
            final(self).spec_device() == old(self).spec_device(),
            match vring {
                Some(vring) => {
                    &&& index < old(self)@.vrings.len()
                    &&& vring@ == old(self)@.vrings[index as int]
                    &&& final(self)@ == old(self)@.with_vring(index as int, final(vring)@)
                    &&& final(vring)@.queue.max_size == vring@.queue.max_size ==> final(self).inv()
                },
                None => index >= old(self)@.vrings.len() && *final(self) == *old(self),
            },
    {
        if index < self.vrings.len() {
            let vring = &mut self.vrings[index];
            Some(vring)
        } else {
            None
        }
    }

    /// Stops the device, as has to be done before it is given up.
    pub fn send_exit_event(&mut self)
        requires
            old(self).inv(),
        ensures
            final(self).inv(),
            final(self)@ == old(self)@,
            T::stopped(old(self).spec_device(), final(self).spec_device()),
    {
        self.device.stop();
    }

    /// Translates an address of the front-end to an address of the guest.
    pub fn vmm_va_to_gpa(&self, vmm_va: u64) -> (result: Result<u64, VhostUserHandlerError>)
        requires
            self.inv(),
        ensures
            match crate::vhost_user::memory_map::translated(self@.mappings, vmm_va) {
                Some(gpa) => result is Ok && result->Ok_0 == gpa,
                None => result == Err::<u64, _>(VhostUserHandlerError::MissingMemoryMapping),
            },
    {
        let mut i: usize = 0;
        assert(self.mappings@.skip(0) =~= self.mappings@);
        while i < self.mappings.len()
            invariant
                self.inv(),
                i <= self.mappings@.len(),
                crate::vhost_user::memory_map::translated(self.mappings@, vmm_va) == crate::vhost_user::memory_map::translated(
                    self.mappings@.skip(i as int),
                    vmm_va,
                ),
            decreases self.mappings@.len() - i,
        {
            let mapping = &self.mappings[i];
            proof {
                assert(self@.mappings[i as int].valid());
                assert(self.mappings@.skip(i as int).skip(1) =~= self.mappings@.skip(i + 1));
            }
            if vmm_va >= mapping.vmm_addr && vmm_va < mapping.vmm_addr + mapping.size {
                return Ok(vmm_va - mapping.vmm_addr + mapping.gpa_base);
            }
            i += 1;
        }
        Err(VhostUserHandlerError::MissingMemoryMapping)
    }

    /// Starts a ring that is stopped and has a kick descriptor, and activates the device with
    /// handles to all rings if it was not active and there is memory.
    fn initialize_vring(&mut self, index: u8, live: &[Option<i32>], handles: Vec<T::Queue>) -> (
        outcome: VringOutcome<()>)
        requires
            old(self).inv(),
            index < old(self)@.vrings.len(),
            live@.len() == old(self)@.vrings[index as int].epolls.len(),
            old(self)@.activates(index as int) ==> old(self).spec_device().can_activate(
                crate::vhost_user::state::numbered(handles@),
            ),
        ensures
            final(self).inv(),
            final(self)@ == old(self)@.initialized(index as int),
            outcome.updates@ == old(self)@.initialize_updates(index as int, live@),
            if old(self)@.activates(index as int) {
                exists|activation: Result<(), crate::virtio::device::DeviceError>|
                    #[trigger] T::activated(
                        old(self).spec_device(),
                        crate::vhost_user::state::numbered(handles@),
                        final(self).spec_device(),
                        activation,
                    ) && outcome.result == crate::vhost_user::state::device_result(activation)
            } else {
                final(self).spec_device() == old(self).spec_device() && outcome.result == Ok::<
                    (),
                    VhostUserError,
                >(())
            },
    {
        let mut updates: Vec<KickUpdate> = Vec::new();
        let ring: usize = index as usize;
        if !self.vrings[ring].is_started() && self.vrings[ring].has_kick_event() {
            updates = self.vrings[ring].start(live);
            assert(self@.vrings =~= old(self)@.vrings.update(
                index as int,
                old(self)@.vrings[index as int].with_ready(true),
            ));
            if !self.device_activated && self.memory_updated {
                self.device_activated = true;
                let activation = self.device.activate(number_handles(handles));
                assert(T::activated(
                    old(self).spec_device(),
                    crate::vhost_user::state::numbered(handles@),
                    self.spec_device(),
                    activation,
                ));
                if activation.is_err() {
                    return VringOutcome {
                        updates,
                        result: Err(VhostUserError::BackendInternalError),
                    };
                }
            }
        }
        VringOutcome { updates, result: Ok(()) }
    }

    /// What a front-end is told when the workers of a device that was activated were started, or
    /// could not be.
    pub fn workers_started<E>(started: Result<(), E>) -> (result: Result<(), VhostUserError>)
        ensures
            result == crate::vhost_user::state::workers_result(started),
    {
        match started {
            Ok(_) => Ok(()),
            Err(_) => Err(VhostUserError::BackendInternalError),
        }
    }

    /// Helper to check if a virtio feature was negotiated.
    pub fn check_feature(&self, feature: u64) -> (result: Result<(), VhostUserError>)
        ensures
            result == if self@.acked_features & feature != 0 {
                Ok(())
            } else {
                Err(VhostUserError::InactiveFeature(feature))
            },
    {
        if self.acked_features & feature != 0 {
            Ok(())
        } else {
            Err(VhostUserError::InactiveFeature(feature))
        }
    }
}

impl<T: VhostUserDevice, W> VhostUserHandler<T, W> {
    /// Claims the back-end for a front-end.
    pub fn set_owner(&mut self) -> (result: Result<(), VhostUserError>)
        requires
            old(self).inv(),
        ensures
            final(self).inv(),
            final(self).spec_device() == old(self).spec_device(),
            final(self)@ == old(self)@.claimed(),
            result == old(self)@.claim_result(),
    {
        if self.owned {
            return Err(VhostUserError::InvalidOperation(RefusedOperation::AlreadyClaimed));
        }
        self.owned = true;
        Ok(())
    }

    /// Gives up the claim, and everything that was negotiated.
    pub fn reset_owner(&mut self) -> (result: Result<(), VhostUserError>)
        requires
            old(self).inv(),
        ensures
            final(self).inv(),
            final(self).spec_device() == old(self).spec_device(),
            final(self)@ == old(self)@.disowned(),
            result is Ok,
    {
        self.owned = false;
        self.features_acked = false;
        self.acked_features = 0;
        self.acked_protocol_features = 0;
        proof {
            let available = self.spec_device().spec_avail_features();
            assert(0u64 & !available == 0) by (bit_vector);
        }
        Ok(())
    }

    /// Disables and stops all rings and resets the device. The protocol goes on as it was. What
    /// comes back has to be done for each ring.
    pub fn reset_device(&mut self, live: &[Vec<Option<i32>>]) -> (updates: Vec<Vec<KickUpdate>>)
        requires
            old(self).inv(),
            live@.len() == old(self)@.vrings.len(),
            forall|i: int|
                0 <= i < live@.len() ==> (#[trigger] live@[i])@.len() == old(
                    self,
                )@.vrings[i].epolls.len(),
        ensures
            final(self).inv(),
            T::stopped(old(self).spec_device(), final(self).spec_device()),
            final(self)@ == old(self)@.device_reset(),
            updates@.len() == old(self)@.vrings.len(),
            forall|i: int|
                0 <= i < updates@.len() ==> (#[trigger] updates@[i])@ == old(
                    self,
                )@.vrings[i].stop_updates(live@[i]@),
    {
        let updates = stop_vrings(&mut self.vrings, live);
        self.features_acked = false;
        self.acked_features = 0;
        self.device.reset();
        proof {
            let available = self.spec_device().spec_avail_features();
            assert(0u64 & !available == 0) by (bit_vector);
        }
        updates
    }

    /// The features the front-end can choose from.
    pub fn get_features(&self) -> (features: u64)
        requires
            self.inv(),
        ensures
            features == self.spec_device().spec_avail_features(),
    {
        self.device.avail_features()
    }

    /// Takes over the features the front-end has chosen.
    ///
    /// Without protocol features there is no request to enable a ring, so all are enabled at once.
    /// If protocol features have been negotiated the rings keep their state.
    pub fn set_features(&mut self, features: u64) -> (result: Result<(), VhostUserError>)
        requires
            old(self).inv(),
            features & !old(self).spec_device().spec_avail_features() == 0 ==> old(
                self,
            ).spec_device().accepts_acked_features(features),
        ensures
            final(self).inv(),
            if features & !old(self).spec_device().spec_avail_features() == 0 {
                &&& result is Ok
                &&& final(self)@ == old(self)@.features_set(features)
                &&& T::features_acked(
                    old(self).spec_device(),
                    features,
                    final(self).spec_device(),
                )
            } else {
                &&& result == Err::<(), VhostUserError>(VhostUserError::InvalidParam)
                &&& *final(self) == *old(self)
            },
    {
        if features & !self.device.avail_features() != 0 {
            return Err(VhostUserError::InvalidParam);
        }
        self.acked_features = features;
        self.features_acked = true;
        if self.acked_features & protocol_features_bit() == 0 {
            enable_vrings(&mut self.vrings);
        }
        let event_idx: bool = self.acked_features & (1u64 << ring_f_event_idx()) != 0;
        set_event_idx(&mut self.vrings, event_idx);
        self.device.set_acked_features(self.acked_features);
        assert(self@.vrings =~= old(self)@.features_set(features).vrings);
        Ok(())
    }

    /// Takes over a new table of memory regions, for each of which it is told whether it could be
    /// mapped, and returns the memory that they make up. If one of them could not be mapped, or the
    /// guest cannot have such regions, nothing changes.
    pub fn set_mem_table<E>(&mut self, mapped: Vec<Result<MappedRegion, E>>) -> (result: Result<
        GuestMemoryMmap<()>,
        MemoryFault<E>,
    >)
        requires
            old(self).inv(),
            forall|i: int|
                0 <= i < mapped@.len() ==> (#[trigger] mapped@[i] matches Ok(mapped)
                    ==> mapped.fits()),
        ensures
            final(self).inv(),
            final(self).spec_device() == old(self).spec_device(),
            match result {
                Ok(mem) => {
                    &&& crate::vhost_user::memory_map::all_usable(mapped@)
                    &&& mapped@.len() > 0
                    &&& crate::virtio::guest_memory::ranges_apart(
                        crate::vhost_user::memory_map::mapped_ranges(mapped@),
                    )
                    &&& crate::virtio::guest_memory::memory_regions(mem)
                        == crate::vhost_user::memory_map::mapped_ranges(mapped@)
                    &&& final(self)@ == old(self)@.memory_shared(
                        crate::vhost_user::memory_map::region_mappings(mapped@),
                    )
                    &&& crate::vhost_user::memory_map::mappings_have_regions(
                        final(self)@.mappings,
                        crate::virtio::guest_memory::memory_regions(mem),
                    )
                    &&& crate::vhost_user::memory_map::regions_have_mappings(
                        crate::virtio::guest_memory::memory_regions(mem),
                        final(self)@.mappings,
                    )
                },
                Err(MemoryFault::Mapping(e)) => {
                    &&& exists|i: int|
                        #[trigger] crate::vhost_user::memory_map::first_unusable(mapped@, i)
                            && mapped@[i] == Err::<MappedRegion, E>(e)
                    &&& final(self)@ == old(self)@
                },
                Err(MemoryFault::Regions(_)) => {
                    &&& (exists|i: int|
                        #[trigger] crate::vhost_user::memory_map::first_unusable(mapped@, i)
                            && mapped@[i] is Ok)
                        || crate::vhost_user::memory_map::all_usable(mapped@) && (mapped@.len() == 0
                        || !crate::virtio::guest_memory::ranges_apart(
                        crate::vhost_user::memory_map::mapped_ranges(mapped@),
                    ))
                    &&& final(self)@ == old(self)@
                },
            },
    {
        let ghost all = mapped@;
        let mut rest = mapped;
        let count: usize = rest.len();
        let mut regions: Vec<GuestRegionMmap<()>> = Vec::new();
        let mut mappings: Vec<AddrMapping> = Vec::new();
        let mut i: usize = 0;
        while i < count
            invariant
                i <= count == all.len(),
                rest@ == all.skip(i as int),
                forall|j: int|
                    0 <= j < all.len() ==> (#[trigger] all[j] matches Ok(mapped) ==> mapped.fits()),
                forall|j: int| 0 <= j < i ==> crate::vhost_user::memory_map::usable(#[trigger] all[j]),
                crate::virtio::guest_memory::region_ranges(regions@)
                    == crate::vhost_user::memory_map::mapped_ranges(all.take(i as int)),
                forall|j: int|
                    0 <= j < regions@.len() ==> crate::virtio::guest_memory::region_range(
                        #[trigger] regions@[j],
                    ).len > 0,
                mappings@ == crate::vhost_user::memory_map::region_mappings(all.take(i as int)),
                crate::vhost_user::memory_map::mappings_valid(mappings@),
                all == mapped@,
                *self == *old(self),
                old(self).inv(),
            decreases count - i,
        {
            let next = rest.remove(0);
            assert(next == all[i as int]);
            assert(rest@ =~= all.skip(i + 1));
            match next {
                Err(e) => {
                    let result: Result<GuestMemoryMmap<()>, MemoryFault<E>> = Err(
                        MemoryFault::Mapping(e),
                    );
                    assert(crate::vhost_user::memory_map::first_unusable(mapped@, i as int));
                    return result;
                },
                Ok(next) => {
                    let ghost before = regions@;
                    let region = next.region;
                    let local_addr: u64 = next.local_addr;
                    match region_new(next.mapping, region.guest_phys_addr) {
                        Err(e) => {
                            assert(crate::vhost_user::memory_map::first_unusable(
                                mapped@,
                                i as int,
                            ));
                            return Err(MemoryFault::Regions(e));
                        },
                        Ok(guest_region) => {
                            regions.push(guest_region);
                        },
                    }
                    mappings.push(
                        AddrMapping {
                            local_addr,
                            vmm_addr: region.user_addr,
                            size: region.memory_size,
                            gpa_base: region.guest_phys_addr,
                        },
                    );
                    proof {
                        let taken = all.take(i + 1);
                        let ranges = crate::vhost_user::memory_map::mapped_ranges(taken);
                        assert(taken.drop_last() =~= all.take(i as int));
                        assert(ranges =~= crate::vhost_user::memory_map::mapped_ranges(
                            taken.drop_last(),
                        ).push(region.range()));
                        assert(crate::virtio::guest_memory::region_ranges(regions@)
                            =~= crate::virtio::guest_memory::region_ranges(before).push(
                            region.range(),
                        ));
                        assert(mappings@ =~= crate::vhost_user::memory_map::region_mappings(taken));
                    }
                },
            }
            i += 1;
        }
        assert(all.take(i as int) =~= all);
        match memory_from_regions(regions) {
            Err(e) => Err(MemoryFault::Regions(e)),
            Ok(mem) => {
                assert(crate::vhost_user::memory_map::ranges_of_mappings(mappings@)
                    =~= crate::vhost_user::memory_map::mapped_ranges(all));
                self.memory_updated = true;
                self.mappings = mappings;
                Ok(mem)
            },
        }
    }

    /// Sets the number of entries of a ring. A number within the limits that is no power of two
    /// is accepted and leaves the ring as it is.
    pub fn set_vring_num(&mut self, index: u32, num: u32) -> (result: Result<(), VhostUserError>)
        requires
            old(self).inv(),
        ensures
            final(self).inv(),
            final(self).spec_device() == old(self).spec_device(),
            if index < old(self)@.vrings.len() && 0 < num <= old(
                self,
            )@.requested_queues[index as int].spec_max_size() {
                let ring = old(self)@.vrings[index as int];
                &&& result is Ok
                &&& final(self)@ == old(self)@.with_vring(
                    index as int,
                    ring.with_queue(crate::virtio::virtqueue::with_size(ring.queue, num as u16)),
                )
            } else {
                &&& result == Err::<(), VhostUserError>(VhostUserError::InvalidParam)
                &&& final(self)@ == old(self)@
            },
    {
        let ring: usize = index as usize;
        if ring >= self.vrings.len() {
            return Err(VhostUserError::InvalidParam);
        }
        if num == 0 || num > self.requested_queues[ring].max_size() as u32 {
            return Err(VhostUserError::InvalidParam);
        }
        queue_set_size(self.vrings[ring].queue_mut(), num as u16);
        proof {
            let before = old(self)@.vrings[index as int];
            assert(self@.vrings =~= old(self)@.vrings.update(
                index as int,
                before.with_queue(crate::virtio::virtqueue::with_size(before.queue, num as u16)),
            ));
        }
        Ok(())
    }

    /// Sets where the parts of a ring are, given as addresses of the front-end, and takes over the
    /// index of the used ring from the memory of the guest.
    ///
    /// Setting the base of a ring restores the index of the available ring only. After the driver
    /// of the guest changes, for instance after a reboot, the index of the used ring starts again.
    pub fn set_vring_addr(
        &mut self,
        index: u32,
        descriptor: u64,
        used: u64,
        available: u64,
        mem: &GuestMemoryMmap<()>,
    ) -> (result: Result<(), VhostUserError>)
        requires
            old(self).inv(),
        ensures
            final(self).inv(),
            final(self).spec_device() == old(self).spec_device(),
            ({
                let desc_table = crate::vhost_user::memory_map::translated(old(self)@.mappings, descriptor);
                let avail_ring = crate::vhost_user::memory_map::translated(old(self)@.mappings, available);
                let used_ring = crate::vhost_user::memory_map::translated(old(self)@.mappings, used);
                if old(self)@.mappings.len() == 0 {
                    &&& result == Err::<(), VhostUserError>(VhostUserError::InvalidParam)
                    &&& final(self)@ == old(self)@
                } else if desc_table is None || avail_ring is None || used_ring is None {
                    &&& result == Err::<(), VhostUserError>(VhostUserError::MissingMemoryMapping)
                    &&& final(self)@ == old(self)@
                } else if index >= old(self)@.vrings.len() {
                    &&& result == Err::<(), VhostUserError>(VhostUserError::InvalidParam)
                    &&& final(self)@ == old(self)@
                } else {
                    let desc_table = desc_table->0 as u64;
                    let avail_ring = avail_ring->0 as u64;
                    let used_ring = used_ring->0 as u64;
                    let placed = old(self)@.with_vring(
                        index as int,
                        old(self)@.vrings[index as int].with_queue_info(
                            desc_table,
                            avail_ring,
                            used_ring,
                        ),
                    );
                    if crate::vhost_user::vring::queue_info_check(
                        desc_table,
                        avail_ring,
                        used_ring,
                    ) is Err {
                        &&& result == Err::<(), VhostUserError>(VhostUserError::InvalidParam)
                        &&& final(self)@ == placed
                    } else {
                        &&& result is Ok <==> crate::virtio::guest_queue::has_used_idx(
                            placed.vrings[index as int].queue,
                            *mem,
                        )
                        &&& match result {
                            Ok(_) => {
                                let ring = final(self)@.vrings[index as int];
                                let next_used = ring.used_indices.last();
                                final(self)@ == placed.with_vring(
                                    index as int,
                                    placed.vrings[index as int].with_used_index(next_used),
                                ).used_idx_set(index as int, next_used)
                            },
                            Err(e) => e == VhostUserError::BackendInternalError && final(self)@
                                == placed,
                        }
                    }
                }
            }),
    {
        if self.mappings.len() == 0 {
            return Err(VhostUserError::InvalidParam);
        }
        let desc_table: u64 = match self.vmm_va_to_gpa(descriptor) {
            Ok(address) => address,
            Err(_) => return Err(VhostUserError::MissingMemoryMapping),
        };
        let avail_ring: u64 = match self.vmm_va_to_gpa(available) {
            Ok(address) => address,
            Err(_) => return Err(VhostUserError::MissingMemoryMapping),
        };
        let used_ring: u64 = match self.vmm_va_to_gpa(used) {
            Ok(address) => address,
            Err(_) => return Err(VhostUserError::MissingMemoryMapping),
        };
        let ring: usize = index as usize;
        if ring >= self.vrings.len() {
            return Err(VhostUserError::InvalidParam);
        }
        let set = self.vrings[ring].set_queue_info(desc_table, avail_ring, used_ring);
        assert(self@.vrings =~= old(self)@.vrings.update(
            index as int,
            old(self)@.vrings[index as int].with_queue_info(desc_table, avail_ring, used_ring),
        ));
        if set.is_err() {
            return Err(VhostUserError::InvalidParam);
        }
        let used_idx = self.vrings[ring].read_used_idx(mem);
        proof {
            let placed = old(self)@.vrings[index as int].with_queue_info(
                desc_table,
                avail_ring,
                used_ring,
            );
            match used_idx {
                Ok(next_used) => assert(self@.vrings =~= old(self)@.vrings.update(
                    index as int,
                    placed,
                ).update(index as int, placed.with_used_index(next_used))),
                Err(_) => assert(self@.vrings =~= old(self)@.vrings.update(index as int, placed)),
            }
        }
        self.set_vring_used_idx(index, used_idx)
    }

    /// Takes over the index of the used ring of a ring, as it was read from the memory of the guest,
    /// or reports that it could not be read.
    pub fn set_vring_used_idx<E>(&mut self, index: u32, used_idx: Result<u16, E>) -> (result:
        Result<(), VhostUserError>)
        requires
            old(self).inv(),
            index < old(self)@.vrings.len(),
        ensures
            final(self).inv(),
            final(self).spec_device() == old(self).spec_device(),
            match used_idx {
                Ok(next_used) => {
                    &&& result is Ok
                    &&& final(self)@ == old(self)@.used_idx_set(index as int, next_used)
                },
                Err(_) => {
                    &&& result == Err::<(), VhostUserError>(VhostUserError::BackendInternalError)
                    &&& final(self)@ == old(self)@
                },
            },
    {
        match used_idx {
            Ok(next_used) => {
                queue_set_next_used(self.vrings[index as usize].queue_mut(), next_used);
                proof {
                    let before = old(self)@.vrings[index as int];
                    assert(self@.vrings =~= old(self)@.vrings.update(
                        index as int,
                        before.with_queue(QueueFields { next_used, ..before.queue }),
                    ));
                }
                Ok(())
            },
            Err(_) => Err(VhostUserError::BackendInternalError),
        }
    }

    /// Sets the position from which the device takes buffers of a ring.
    pub fn set_vring_base(&mut self, index: u32, base: u32) -> (result: Result<(), VhostUserError>)
        requires
            old(self).inv(),
        ensures
            final(self).inv(),
            final(self).spec_device() == old(self).spec_device(),
            if index < old(self)@.vrings.len() {
                &&& result is Ok
                &&& final(self)@ == old(self)@.base_set(index as int, base)
            } else {
                &&& result == Err::<(), VhostUserError>(VhostUserError::InvalidParam)
                &&& final(self)@ == old(self)@
            },
    {
        let ring: usize = index as usize;
        if ring >= self.vrings.len() {
            return Err(VhostUserError::InvalidParam);
        }
        let next_avail: u16 =
            #[verifier::truncate]
            (base as u16);
        queue_set_next_avail(self.vrings[ring].queue_mut(), next_avail);
        proof {
            let before = old(self)@.vrings[index as int];
            assert(self@.vrings =~= old(self)@.vrings.update(
                index as int,
                before.with_queue(QueueFields { next_avail: base as u16, ..before.queue }),
            ));
        }
        Ok(())
    }

    /// Stops a ring and tells from where the device would have taken the next buffer. The ring
    /// loses its kick and call descriptors.
    pub fn get_vring_base(&mut self, index: u32, live: &[Option<i32>]) -> (outcome: VringOutcome<
        VringState,
    >)
        requires
            old(self).inv(),
            index < old(self)@.vrings.len() ==> live@.len() == old(
                self,
            )@.vrings[index as int].epolls.len(),
        ensures
            final(self).inv(),
            final(self).spec_device() == old(self).spec_device(),
            if index < old(self)@.vrings.len() {
                let ring = old(self)@.vrings[index as int];
                &&& outcome.result == Ok::<VringState, VhostUserError>(old(self)@.base_of(index))
                &&& outcome.updates@ == ring.stop_updates(live@)
                &&& final(self)@ == old(self)@.with_vring(
                    index as int,
                    ring.with_ready(false).with_kick(None).with_call(None),
                )
            } else {
                &&& outcome.result == Err::<VringState, VhostUserError>(
                    VhostUserError::InvalidParam,
                )
                &&& outcome.updates@.len() == 0
                &&& final(self)@ == old(self)@
            },
    {
        let ring: usize = index as usize;
        if ring >= self.vrings.len() {
            return VringOutcome {
                updates: Vec::new(),
                result: Err(VhostUserError::InvalidParam),
            };
        }
        let updates = self.vrings[ring].stop_updates(live);
        let stopped: Result<(), ()> = self.vrings[ring].stop(Ok(()));
        let next_avail: u16 = queue_next_avail(self.vrings[ring].queue_mut());
        let none = self.vrings[ring].set_kick(None, live);
        self.vrings[ring].set_call(None);
        assert(self@.vrings =~= old(self)@.vrings.update(
            index as int,
            old(self)@.vrings[index as int].with_ready(false).with_kick(None).with_call(None),
        ));
        VringOutcome { updates, result: Ok(VringState { index, num: next_avail as u32 }) }
    }

    /// Replaces the kick descriptor of a ring, and initialises the ring.
    pub fn set_vring_kick(
        &mut self,
        index: u8,
        fd: Option<i32>,
        live: &[Option<i32>],
        handles: Vec<T::Queue>,
    ) -> (outcome: VringOutcome<()>)
        requires
            old(self).inv(),
            handles@.len() == old(self)@.vrings.len(),
            index < old(self)@.vrings.len() ==> live@.len() == old(
                self,
            )@.vrings[index as int].epolls.len(),
            index < old(self)@.vrings.len() && old(self)@.with_vring(
                index as int,
                old(self)@.vrings[index as int].with_kick(fd),
            ).activates(index as int) ==> old(self).spec_device().can_activate(crate::vhost_user::state::numbered(handles@)),
        ensures
            final(self).inv(),
            if index < old(self)@.vrings.len() {
                let ring = old(self)@.vrings[index as int];
                let kicked = old(self)@.with_vring(index as int, ring.with_kick(fd));
                &&& final(self)@ == kicked.initialized(index as int)
                &&& outcome.updates@ == ring.kick_change_updates(live@, fd)
                    + kicked.initialize_updates(index as int, live@)
                &&& if kicked.activates(index as int) {
                    exists|activation: Result<(), crate::virtio::device::DeviceError>|
                        #[trigger] T::activated(
                            old(self).spec_device(),
                            crate::vhost_user::state::numbered(handles@),
                            final(self).spec_device(),
                            activation,
                        ) && outcome.result == crate::vhost_user::state::device_result(activation)
                } else {
                    final(self).spec_device() == old(self).spec_device() && outcome.result is Ok
                }
            } else {
                &&& outcome.result == Err::<(), VhostUserError>(VhostUserError::InvalidParam)
                &&& outcome.updates@.len() == 0
                &&& *final(self) == *old(self)
            },
    {
        let ring: usize = index as usize;
        if ring >= self.vrings.len() {
            return VringOutcome {
                updates: Vec::new(),
                result: Err(VhostUserError::InvalidParam),
            };
        }
        let mut updates = self.vrings[ring].set_kick(fd, live);
        assert(self@.vrings =~= old(self)@.vrings.update(
            index as int,
            old(self)@.vrings[index as int].with_kick(fd),
        ));
        let mut initialized = self.initialize_vring(index, live, handles);
        updates.append(&mut initialized.updates);
        VringOutcome { updates, result: initialized.result }
    }

    /// Replaces the call descriptor of a ring, and initialises the ring.
    pub fn set_vring_call(
        &mut self,
        index: u8,
        fd: Option<i32>,
        live: &[Option<i32>],
        handles: Vec<T::Queue>,
    ) -> (outcome: VringOutcome<()>)
        requires
            old(self).inv(),
            handles@.len() == old(self)@.vrings.len(),
            index < old(self)@.vrings.len() ==> live@.len() == old(
                self,
            )@.vrings[index as int].epolls.len(),
            index < old(self)@.vrings.len() && old(self)@.activates(index as int) ==> old(
                self,
            ).spec_device().can_activate(crate::vhost_user::state::numbered(handles@)),
        ensures
            final(self).inv(),
            if index < old(self)@.vrings.len() {
                let called = old(self)@.with_vring(
                    index as int,
                    old(self)@.vrings[index as int].with_call(fd),
                );
                &&& final(self)@ == called.initialized(index as int)
                &&& outcome.updates@ == called.initialize_updates(index as int, live@)
                &&& if called.activates(index as int) {
                    exists|activation: Result<(), crate::virtio::device::DeviceError>|
                        #[trigger] T::activated(
                            old(self).spec_device(),
                            crate::vhost_user::state::numbered(handles@),
                            final(self).spec_device(),
                            activation,
                        ) && outcome.result == crate::vhost_user::state::device_result(activation)
                } else {
                    final(self).spec_device() == old(self).spec_device() && outcome.result is Ok
                }
            } else {
                &&& outcome.result == Err::<(), VhostUserError>(VhostUserError::InvalidParam)
                &&& outcome.updates@.len() == 0
                &&& *final(self) == *old(self)
            },
    {
        let ring: usize = index as usize;
        if ring >= self.vrings.len() {
            return VringOutcome {
                updates: Vec::new(),
                result: Err(VhostUserError::InvalidParam),
            };
        }
        self.vrings[ring].set_call(fd);
        assert(self@.vrings =~= old(self)@.vrings.update(
            index as int,
            old(self)@.vrings[index as int].with_call(fd),
        ));
        self.initialize_vring(index, live, handles)
    }

    /// Replaces the error descriptor of a ring.
    pub fn set_vring_err(&mut self, index: u8, fd: Option<i32>) -> (result: Result<
        (),
        VhostUserError,
    >)
        requires
            old(self).inv(),
        ensures
            final(self).inv(),
            final(self).spec_device() == old(self).spec_device(),
            if index < old(self)@.vrings.len() {
                &&& result is Ok
                &&& final(self)@ == old(self)@.with_vring(
                    index as int,
                    old(self)@.vrings[index as int].with_err(fd),
                )
            } else {
                &&& result == Err::<(), VhostUserError>(VhostUserError::InvalidParam)
                &&& final(self)@ == old(self)@
            },
    {
        let ring: usize = index as usize;
        if ring >= self.vrings.len() {
            return Err(VhostUserError::InvalidParam);
        }
        self.vrings[ring].set_err(fd);
        assert(self@.vrings =~= old(self)@.vrings.update(
            index as int,
            old(self)@.vrings[index as int].with_err(fd),
        ));
        Ok(())
    }

    /// The protocol features the front-end can choose from.
    pub fn get_protocol_features(&self) -> (features: u64)
        requires
            self.inv(),
        ensures
            features == self.spec_device().spec_protocol_features(),
    {
        self.device.protocol_features()
    }

    /// Takes over the protocol features the front-end has chosen. The request comes even before
    /// features are negotiated.
    pub fn set_protocol_features(&mut self, features: u64) -> (result: Result<(), VhostUserError>)
        requires
            old(self).inv(),
        ensures
            final(self).inv(),
            final(self).spec_device() == old(self).spec_device(),
            final(self)@ == (HandlerState { acked_protocol_features: features, ..old(self)@ }),
            result is Ok,
    {
        self.acked_protocol_features = features;
        Ok(())
    }

    /// The number of queues of the device.
    pub fn get_queue_num(&self) -> (num: u64)
        requires
            self.inv(),
        ensures
            num == self.spec_device().spec_queues().len(),
    {
        self.requested_queues.len() as u64
    }

    /// Enables or disables a ring, which needs protocol features to have been negotiated.
    ///
    /// The device must not pass data through a ring before it is enabled, or after it has been
    /// disabled.
    pub fn set_vring_enable(&mut self, index: u32, enable: bool) -> (result: Result<
        (),
        VhostUserError,
    >)
        requires
            old(self).inv(),
        ensures
            final(self).inv(),
            final(self).spec_device() == old(self).spec_device(),
            if old(self)@.acked_features & crate::vhost_user::features::PROTOCOL_FEATURES == 0 {
                &&& result == Err::<(), VhostUserError>(
                    VhostUserError::InactiveFeature(crate::vhost_user::features::PROTOCOL_FEATURES),
                )
                &&& final(self)@ == old(self)@
            } else if index < old(self)@.vrings.len() {
                &&& result is Ok
                &&& final(self)@ == old(self)@.with_vring(
                    index as int,
                    old(self)@.vrings[index as int].with_enabled(enable),
                )
            } else {
                &&& result == Err::<(), VhostUserError>(VhostUserError::InvalidParam)
                &&& final(self)@ == old(self)@
            },
    {
        let checked = self.check_feature(protocol_features_bit());
        if checked.is_err() {
            return checked;
        }
        let ring: usize = index as usize;
        if ring >= self.vrings.len() {
            return Err(VhostUserError::InvalidParam);
        }
        self.vrings[ring].set_enabled(enable);
        assert(self@.vrings =~= old(self)@.vrings.update(
            index as int,
            old(self)@.vrings[index as int].with_enabled(enable),
        ));
        Ok(())
    }

    /// Reads the configuration space of the device.
    pub fn get_config(&self, offset: u32, size: u32) -> (result: Result<Vec<u8>, VhostUserError>)
        requires
            self.inv(),
            self.spec_device().can_read_config(offset as usize, size as nat),
        ensures
            ({
                let zeros = Seq::new(size as nat, |i: int| 0u8);
                let (data, read) = self.spec_device().config_read(offset as usize, zeros);
                match read {
                    Ok(_) => result is Ok && result->Ok_0@ == data,
                    Err(_) => result == Err::<Vec<u8>, VhostUserError>(
                        VhostUserError::BackendInternalError,
                    ),
                }
            }),
    {
        let mut data: Vec<u8> = vec![0u8; size as usize];
        assert(data@ =~= Seq::new(size as nat, |i: int| 0u8));
        match self.device.read_config(offset as usize, data.as_mut_slice()) {
            Ok(()) => Ok(data),
            Err(_) => Err(VhostUserError::BackendInternalError),
        }
    }

    /// Writes to the configuration space of the device.
    pub fn set_config(&mut self, offset: u32, buf: &[u8]) -> (result: Result<(), VhostUserError>)
        requires
            old(self).inv(),
        ensures
            final(self).inv(),
            final(self)@ == old(self)@,
            exists|written: Result<(), crate::virtio::device::DeviceError>|
                #[trigger] T::config_written(
                    old(self).spec_device(),
                    offset as usize,
                    buf@,
                    final(self).spec_device(),
                    written,
                ) && result == crate::vhost_user::state::device_result(written),
    {
        let written = self.device.write_config(offset as usize, buf);
        assert(T::config_written(
            old(self).spec_device(),
            offset as usize,
            buf@,
            self.spec_device(),
            written,
        ));
        match written {
            Ok(()) => Ok(()),
            Err(_) => Err(VhostUserError::BackendInternalError),
        }
    }

    /// What to set on a channel for requests of the back-end, going by what was negotiated.
    pub fn set_backend_req_fd(&self) -> (flags: BackendFlags)
        ensures
            flags.reply_ack == (self@.acked_protocol_features
                & crate::vhost_user::features::PROTOCOL_REPLY_ACK != 0),
            flags.shared_object == (self@.acked_protocol_features
                & crate::vhost_user::features::PROTOCOL_SHARED_OBJECT != 0),
    {
        BackendFlags {
            reply_ack: self.acked_protocol_features & protocol_reply_ack() != 0,
            shared_object: self.acked_protocol_features & protocol_shared_object() != 0,
        }
    }

    /// Hands a connection to the display of the front-end to the device.
    pub fn set_gpu_socket(&mut self, gpu_socket: T::GpuSocket) -> (result: Result<
        (),
        VhostUserError,
    >)
        requires
            old(self).inv(),
        ensures
            final(self).inv(),
            final(self)@ == old(self)@,
            T::gpu_socket_set(old(self).spec_device(), gpu_socket, final(self).spec_device()),
            result is Ok,
    {
        self.device.set_gpu_socket(gpu_socket);
        Ok(())
    }

    /// Refuses to share the state of requests in flight: the feature is never negotiated.
    pub fn get_inflight_fd(&self) -> (result: Result<(), VhostUserError>)
        ensures
            result == Err::<(), VhostUserError>(
                VhostUserError::InvalidOperation(RefusedOperation::NotSupported),
            ),
    {
        Err(VhostUserError::InvalidOperation(RefusedOperation::NotSupported))
    }

    /// Refuses to take over the state of requests in flight: the feature is never negotiated.
    pub fn set_inflight_fd(&self) -> (result: Result<(), VhostUserError>)
        ensures
            result == Err::<(), VhostUserError>(
                VhostUserError::InvalidOperation(RefusedOperation::NotSupported),
            ),
    {
        Err(VhostUserError::InvalidOperation(RefusedOperation::NotSupported))
    }

    /// The number of memory regions that can be shared.
    pub fn get_max_mem_slots(&self) -> (slots: u64)
        ensures
            slots == MAX_MEM_SLOTS,
    {
        MAX_MEM_SLOTS
    }

    /// Adds a memory region to the memory of the guest, and returns the memory with it. If the region
    /// could not be mapped, or the guest cannot have it, nothing changes.
    pub fn add_mem_region<E>(
        &mut self,
        mapped: Result<MappedRegion, E>,
        mem: &GuestMemoryMmap<()>,
    ) -> (result: Result<GuestMemoryMmap<()>, MemoryFault<E>>)
        requires
            old(self).inv(),
            mapped matches Ok(mapped) ==> mapped.fits(),
        ensures
            final(self).inv(),
            final(self).spec_device() == old(self).spec_device(),
            match mapped {
                Ok(mapped) => {
                    let ranges = crate::virtio::guest_memory::with_range(
                        crate::virtio::guest_memory::memory_regions(*mem),
                        mapped.region.range(),
                    );
                    if mapped.region.fits_guest() && crate::virtio::guest_memory::ranges_apart(
                        ranges,
                    ) {
                        &&& result matches Ok(new)
                            && crate::virtio::guest_memory::memory_regions(new) == ranges
                        &&& final(self)@ == old(self)@.region_added(
                            mapped.region,
                            mapped.local_addr,
                        )
                        &&& crate::vhost_user::memory_map::step_kept(
                            old(self)@.mappings,
                            crate::virtio::guest_memory::memory_regions(*mem),
                            final(self)@.mappings,
                            ranges,
                        )
                    } else {
                        &&& result matches Err(MemoryFault::Regions(_))
                        &&& final(self)@ == old(self)@
                    }
                },
                Err(e) => {
                    &&& result matches Err(MemoryFault::Mapping(fault)) && fault == e
                    &&& final(self)@ == old(self)@
                },
            },
    {
        let mapped = match mapped {
            Err(e) => return Err(MemoryFault::Mapping(e)),
            Ok(mapped) => mapped,
        };
        let region = mapped.region;
        let local_addr: u64 = mapped.local_addr;
        let guest_region = match region_new(mapped.mapping, region.guest_phys_addr) {
            Err(e) => return Err(MemoryFault::Regions(e)),
            Ok(guest_region) => guest_region,
        };
        match memory_insert_region(mem, guest_region) {
            Err(e) => Err(MemoryFault::Regions(e)),
            Ok(new) => {
                self.mappings.push(
                    AddrMapping {
                        local_addr,
                        vmm_addr: region.user_addr,
                        size: region.memory_size,
                        gpa_base: region.guest_phys_addr,
                    },
                );
                proof {
                    crate::vhost_user::memory_map::lemma_add_keeps_step(
                        old(self)@.mappings,
                        crate::virtio::guest_memory::memory_regions(*mem),
                        AddrMapping::of_region(region, local_addr),
                    );
                }
                Ok(new)
            },
        }
    }

    /// Removes a memory region from the memory of the guest, and returns the memory without it. If
    /// the memory has no such region nothing changes.
    pub fn remove_mem_region(&mut self, region: &MemoryRegion, mem: &GuestMemoryMmap<()>) -> (
        result: Result<GuestMemoryMmap<()>, vm_memory::Error>)
        requires
            old(self).inv(),
        ensures
            final(self).inv(),
            final(self).spec_device() == old(self).spec_device(),
            if crate::virtio::guest_memory::memory_regions(*mem).contains(region.range()) {
                &&& result matches Ok(new) && crate::virtio::guest_memory::memory_regions(new)
                    == crate::virtio::guest_memory::without_range(
                    crate::virtio::guest_memory::memory_regions(*mem),
                    region.guest_phys_addr,
                )
                &&& final(self)@ == old(self)@.region_removed(*region)
                &&& crate::vhost_user::memory_map::step_kept(
                    old(self)@.mappings,
                    crate::virtio::guest_memory::memory_regions(*mem),
                    final(self)@.mappings,
                    crate::virtio::guest_memory::memory_regions(result->Ok_0),
                )
            } else {
                &&& result is Err
                &&& final(self)@ == old(self)@
            },
    {
        let removed = memory_remove_region(mem, region.guest_phys_addr, region.memory_size);
        if removed.is_ok() {
            let mut kept: Vec<AddrMapping> = Vec::new();
            let mut i: usize = 0;
            while i < self.mappings.len()
                invariant
                    i <= self.mappings@.len(),
                    crate::vhost_user::memory_map::mappings_valid(self.mappings@),
                    crate::vhost_user::memory_map::mappings_valid(kept@),
                    kept@ == crate::vhost_user::memory_map::mappings_without(
                        self.mappings@.take(i as int),
                        region.guest_phys_addr,
                    ),
                decreases self.mappings@.len() - i,
            {
                let mapping = self.mappings[i];
                proof {
                    assert(mapping.valid());
                    assert(self.mappings@.take(i + 1).drop_last() =~= self.mappings@.take(
                        i as int,
                    ));
                }
                if mapping.gpa_base != region.guest_phys_addr {
                    kept.push(mapping);
                }
                i += 1;
            }
            assert(self.mappings@.take(i as int) =~= self.mappings@);
            self.mappings = kept;
            proof {
                crate::vhost_user::memory_map::lemma_remove_keeps_step(
                    old(self)@.mappings,
                    crate::virtio::guest_memory::memory_regions(*mem),
                    region.guest_phys_addr,
                );
            }
        }
        removed
    }

    /// The bitmaps in which to log changes of the memory regions, one for each region in their
    /// order. They are all created before any is put in place: if one could not be created, the
    /// first error comes back.
    pub fn set_log_base<B, E>(created: Vec<Result<B, E>>) -> (result: Result<Vec<B>, E>)
        ensures
            result matches Ok(bitmaps) ==> {
                &&& bitmaps@.len() == created@.len()
                &&& forall|i: int|
                    0 <= i < created@.len() ==> #[trigger] created@[i] == Ok::<B, E>(bitmaps@[i])
            },
            result matches Err(e) ==> exists|i: int| #[trigger] first_error(created@, i, e),
    {
        let ghost all = created@;
        let mut rest = created;
        let count: usize = rest.len();
        let mut bitmaps: Vec<B> = Vec::new();
        let mut error: Option<E> = None;
        let mut i: usize = 0;
        while i < count && error.is_none()
            invariant
                i <= count == all.len(),
                error is None ==> rest@ == all.skip(i as int) && bitmaps@.len() == i,
                forall|j: int|
                    0 <= j < bitmaps@.len() ==> #[trigger] all[j] == Ok::<B, E>(bitmaps@[j]),
                error matches Some(e) ==> first_error(all, bitmaps@.len() as int, e),
            decreases count - i,
        {
            let bitmap = rest.remove(0);
            assert(bitmap == all[i as int]);
            assert(rest@ =~= all.skip(i + 1));
            match bitmap {
                Ok(bitmap) => {
                    bitmaps.push(bitmap);
                },
                Err(e) => {
                    error = Some(e);
                },
            }
            i += 1;
        }
        match error {
            None => Ok(bitmaps),
            Some(e) => {
                let result: Result<Vec<B>, E> = Err(e);
                assert(first_error(created@, bitmaps@.len() as int, result->Err_0));
                result
            },
        }
    }

    /// Takes note of the creation of a user fault handler for postcopy migration.
    pub fn postcopy_advice<E>(&mut self, created: Result<(), E>) -> (result: Result<(), E>)
        requires
            old(self).inv(),
        ensures
            final(self).inv(),
            final(self).spec_device() == old(self).spec_device(),
            result == created,
            final(self)@ == if created is Ok {
                HandlerState { uffd: true, ..old(self)@ }
            } else {
                old(self)@
            },
    {
        if created.is_ok() {
            self.uffd = true;
        }
        created
    }

    /// The address ranges to register with the user fault handler, in the order of the mappings.
    pub fn postcopy_listen(&self) -> (result: Result<Vec<(u64, u64)>, VhostUserError>)
        ensures
            match result {
                Ok(ranges) => {
                    &&& self@.uffd
                    &&& ranges@ == self@.mappings.map_values(
                        |mapping: AddrMapping| (mapping.local_addr, mapping.size),
                    )
                },
                Err(e) => !self@.uffd && e == VhostUserError::NoUserFaultHandler,
            },
    {
        if !self.uffd {
            return Err(VhostUserError::NoUserFaultHandler);
        }
        let mut ranges: Vec<(u64, u64)> = Vec::new();
        let mut i: usize = 0;
        while i < self.mappings.len()
            invariant
                i <= self.mappings@.len(),
                ranges@.len() == i,
                forall|j: int|
                    0 <= j < i ==> #[trigger] ranges@[j] == (
                        self.mappings@[j].local_addr,
                        self.mappings@[j].size,
                    ),
            decreases self.mappings@.len() - i,
        {
            let mapping = &self.mappings[i];
            ranges.push((mapping.local_addr, mapping.size));
            i += 1;
        }
        Ok(ranges)
    }

    /// Forgets the user fault handler.
    pub fn postcopy_end(&mut self) -> (result: Result<(), VhostUserError>)
        requires
            old(self).inv(),
        ensures
            final(self).inv(),
            final(self).spec_device() == old(self).spec_device(),
            final(self)@ == (HandlerState { uffd: false, ..old(self)@ }),
            result is Ok,
    {
        self.uffd = false;
        Ok(())
    }
}

} // verus!
