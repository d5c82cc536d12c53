//! The state of a vhost-user back-end, and what requests make of it.

use crate::vhost_user::memory_map::{AddrMapping, MemoryRegion};
use crate::virtio::guest_memory::GuestRange;
use crate::virtio::queue_args::QueueArgs;
use crate::virtio::virtqueue::QueueFields;
use crate::vhost_user::vring::{KickUpdate, Vring, VringView};
use vstd::prelude::*;

verus! {

/// Why an operation is refused.
#[derive(Debug, Clone, Copy, PartialEq, Eq, Structural)]
pub enum RefusedOperation {
    /// The back-end has an owner already.
    AlreadyClaimed,
    /// The back-end does not support the operation.
    NotSupported,
}

/// Why a request failed.
#[derive(Debug, Clone, Copy, PartialEq, Eq, Structural)]
pub enum VhostUserError {
    /// The operation is not possible.
    InvalidOperation(RefusedOperation),
    /// A parameter is not valid.
    InvalidParam,
    /// The device, or the memory of the guest, did not do what was asked.
    BackendInternalError,
    /// The request needs a feature that was not negotiated.
    InactiveFeature(u64),
    /// No memory region holds the address.
    MissingMemoryMapping,
    /// No user fault handler was registered.
    NoUserFaultHandler,
}

/// The position from which the device takes buffers of a ring.
#[derive(Debug, Clone, Copy, PartialEq, Eq, Structural)]
pub struct VringState {
    /// The ring.
    pub index: u32,
    /// The position.
    pub num: u32,
}

/// The state of a handler, but for the device.
#[verifier::ext_equal]
pub struct HandlerState<W> {
    /// Whether the device was activated.
    pub device_activated: bool,
    /// Whether the front-end has shared memory.
    pub memory_updated: bool,
    /// The queues the device asked for.
    pub requested_queues: Seq<QueueArgs>,
    /// Whether a front-end has claimed the back-end.
    pub owned: bool,
    /// Whether features were negotiated.
    pub features_acked: bool,
    /// The negotiated features.
    pub acked_features: u64,
    /// The negotiated protocol features.
    pub acked_protocol_features: u64,
    /// Where the shared memory is.
    pub mappings: Seq<AddrMapping>,
    /// The rings.
    pub vrings: Seq<VringView<W>>,
    /// Whether there is a user fault handler.
    pub uffd: bool,
}

impl<W> HandlerState<W> {
    /// The state with another state of one ring.
    pub open spec fn with_vring(self, index: int, vring: VringView<W>) -> HandlerState<W> {
        HandlerState { vrings: self.vrings.update(index, vring), ..self }
    }

    /// The state after a front-end claimed the back-end.
    pub open spec fn claimed(self) -> HandlerState<W> {
        HandlerState { owned: true, ..self }
    }

    /// The answer to a front-end that claims the back-end.
    pub open spec fn claim_result(self) -> Result<(), VhostUserError> {
        if self.owned {
            Err(VhostUserError::InvalidOperation(RefusedOperation::AlreadyClaimed))
        } else {
            Ok(())
        }
    }

    /// The state after an owner gave up the back-end.
    pub open spec fn disowned(self) -> HandlerState<W> {
        HandlerState {
            owned: false,
            features_acked: false,
            acked_features: 0,
            acked_protocol_features: 0,
            ..self
        }
    }

    /// The state after a reset of the device: no ring can be processed and no features are
    /// negotiated, but the protocol goes on as it was.
    pub open spec fn device_reset(self) -> HandlerState<W> {
        HandlerState {
            features_acked: false,
            acked_features: 0,
            vrings: self.vrings.map_values(
                |ring: VringView<W>| ring.with_enabled(false).with_ready(false),
            ),
            ..self
        }
    }

    /// The state after `features` were negotiated: event indices are used in all rings if that
    /// was negotiated, and all rings are enabled unless protocol features were.
    pub open spec fn features_set(self, features: u64) -> HandlerState<W> {
        HandlerState {
            acked_features: features,
            features_acked: true,
            vrings: self.vrings.map_values(
                |ring: VringView<W>| negotiated_ring(ring, features),
            ),
            ..self
        }
    }

    /// The state after a new table of memory regions was taken over.
    pub open spec fn memory_shared(self, mappings: Seq<AddrMapping>) -> HandlerState<W> {
        HandlerState { memory_updated: true, mappings, ..self }
    }

    /// The state after the index of the used ring of a ring was taken over.
    pub open spec fn used_idx_set(self, index: int, next_used: u16) -> HandlerState<W> {
        let ring = self.vrings[index];
        self.with_vring(index, ring.with_queue(QueueFields { next_used, ..ring.queue }))
    }

    /// The state after the base of a ring was set.
    pub open spec fn base_set(self, index: int, base: u32) -> HandlerState<W> {
        let ring = self.vrings[index];
        self.with_vring(
            index,
            ring.with_queue(QueueFields { next_avail: base as u16, ..ring.queue }),
        )
    }

    /// What a front-end that asks for the base of a ring is told.
    pub open spec fn base_of(self, index: u32) -> VringState {
        VringState { index, num: self.vrings[index as int].queue.next_avail as u32 }
    }

    /// The state after a memory region was added.
    pub open spec fn region_added(self, region: MemoryRegion, local_addr: u64) -> HandlerState<W> {
        HandlerState {
            mappings: self.mappings.push(AddrMapping::of_region(region, local_addr)),
            ..self
        }
    }

    /// The state after a memory region was removed.
    pub open spec fn region_removed(self, region: MemoryRegion) -> HandlerState<W> {
        HandlerState {
            mappings: crate::vhost_user::memory_map::mappings_without(self.mappings, region.guest_phys_addr),
            ..self
        }
    }

    /// Whether initialising the ring starts it: it is stopped and there is a kick descriptor.
    pub open spec fn starts(self, index: int) -> bool {
        !self.vrings[index].queue.ready && self.vrings[index].kick is Some
    }

    /// Whether initialising the ring activates the device: the ring is the first to be started
    /// after the front-end has shared memory.
    pub open spec fn activates(self, index: int) -> bool {
        self.starts(index) && !self.device_activated && self.memory_updated
    }

    /// The state after a ring was initialised.
    pub open spec fn initialized(self, index: int) -> HandlerState<W> {
        if self.starts(index) {
            HandlerState {
                device_activated: self.device_activated || self.memory_updated,
                ..self.with_vring(index, self.vrings[index].with_ready(true))
            }
        } else {
            self
        }
    }

    /// The changes to epoll instances when a ring is initialised.
    pub open spec fn initialize_updates(self, index: int, live: Seq<Option<i32>>) -> Seq<
        KickUpdate,
    > {
        if self.starts(index) {
            crate::vhost_user::vring::kick_updates(
                self.vrings[index].epolls,
                live,
                None,
                self.vrings[index].kick,
            )
        } else {
            seq![]
        }
    }
}

/// What negotiating `features` makes of a ring.
pub open spec fn negotiated_ring<W>(ring: VringView<W>, features: u64) -> VringView<W> {
    let event_idx_enabled = features & (1u64 << crate::vhost_user::features::RING_F_EVENT_IDX) != 0;
    let ring = ring.with_queue(QueueFields { event_idx_enabled, ..ring.queue });
    if features & crate::vhost_user::features::PROTOCOL_FEATURES == 0 {
        ring.with_enabled(true)
    } else {
        ring
    }
}

/// Handles, numbered in their order.
pub open spec fn numbered<Q>(handles: Seq<Q>) -> Map<usize, Q> {
    Map::new(|i: usize| i < handles.len(), |i: usize| handles[i as int])
}

/// Whether there is a ring for each queue, with the size the device asked for.
pub open spec fn rings_offer<W>(vrings: Seq<VringView<W>>, queues: Seq<QueueArgs>) -> bool {
    &&& vrings.len() == queues.len()
    &&& forall|i: int|
        0 <= i < vrings.len() ==> (#[trigger] vrings[i]).queue.max_size
            == queues[i].spec_max_size()
}

/// The states of some rings.
pub open spec fn vring_views<W>(vrings: Seq<Vring<W>>) -> Seq<VringView<W>> {
    vrings.map_values(|ring: Vring<W>| ring@)
}

/// What a front-end is told of what the device returned.
pub open spec fn device_result(
    returned: Result<(), crate::virtio::device::DeviceError>,
) -> Result<(), VhostUserError> {
    if returned is Ok {
        Ok(())
    } else {
        Err(VhostUserError::BackendInternalError)
    }
}

/// What a front-end is told when the workers of a device that was activated were started, or could
/// not be.
pub open spec fn workers_result<E>(started: Result<(), E>) -> Result<(), VhostUserError> {
    if started is Ok {
        Ok(())
    } else {
        Err(VhostUserError::BackendInternalError)
    }
}

/// What a front-end is told of an activation, where workers are started only if the device could be
/// activated.
pub open spec fn activation_result<E>(
    returned: Result<(), crate::virtio::device::DeviceError>,
    started: Result<(), E>,
) -> Result<(), VhostUserError> {
    if returned is Ok {
        workers_result(started)
    } else {
        device_result(returned)
    }
}

/// A claimed back-end refuses every further claim until its owner gives it up.
pub proof fn lemma_claim_is_exclusive<W>(state: HandlerState<W>)
    ensures
        state.claimed().claim_result() is Err,
        state.disowned().claim_result() is Ok,
        state.claimed().disowned().claim_result() is Ok,
{
}

/// After a reset of the device no ring can be processed and no features are negotiated, but the
/// owner, the protocol features, the memory and the descriptors of the rings are kept.
pub proof fn lemma_reset_stops_all_rings<W>(state: HandlerState<W>)
    ensures
        forall|i: int|
            0 <= i < state.vrings.len() ==> {
                let ring = #[trigger] state.device_reset().vrings[i];
                &&& !ring.processable()
                &&& ring.kick == state.vrings[i].kick
                &&& ring.call == state.vrings[i].call
                &&& ring.err == state.vrings[i].err
            },
        state.device_reset().acked_features == 0,
        !state.device_reset().features_acked,
        state.device_reset().owned == state.owned,
        state.device_reset().acked_protocol_features == state.acked_protocol_features,
        state.device_reset().mappings == state.mappings,
{
}

/// Negotiating features without protocol features enables all rings; with them, every ring stays
/// as it was. Either way no ring is started or stopped.
pub proof fn lemma_features_and_rings<W>(state: HandlerState<W>, features: u64)
    ensures
        forall|i: int|
            0 <= i < state.vrings.len() ==> {
                let ring = #[trigger] state.features_set(features).vrings[i];
                &&& features & crate::vhost_user::features::PROTOCOL_FEATURES == 0 ==> ring.enabled
                &&& features & crate::vhost_user::features::PROTOCOL_FEATURES != 0 ==> ring.enabled
                    == state.vrings[i].enabled
                &&& ring.queue.ready == state.vrings[i].queue.ready
            },
{
}

/// The device is activated once: the ring that activates it leaves it active, and no ring
/// activates an active device.
pub proof fn lemma_activated_once<W>(state: HandlerState<W>, first: int, then: int)
    requires
        0 <= first < state.vrings.len(),
        0 <= then < state.vrings.len(),
    ensures
        state.activates(first) ==> state.initialized(first).device_activated,
        state.device_activated ==> state.initialized(first).device_activated
            && !state.activates(first),
        state.activates(first) ==> !state.initialized(first).activates(then),
{
}

/// The base of a ring is read as it was set, as far as it fits the ring, and reading it stops the
/// ring without moving it.
pub proof fn lemma_base_round_trip<W>(state: HandlerState<W>, index: u32, base: u32)
    requires
        index < state.vrings.len(),
    ensures
        state.base_set(index as int, base).base_of(index).num == base % 0x1_0000,
        base < 0x1_0000 ==> state.base_set(index as int, base).base_of(index).num == base,
        state.base_set(index as int, base).base_of(index).index == index,
{
    assert((base as u16) as u32 == base % 0x1_0000) by (bit_vector);
}

/// Removing a memory region that was just added succeeds, and leaves the memory of the guest and the
/// translation of addresses as they were. The memory can have further regions, which have no
/// mapping. None of its regions is empty.
pub proof fn lemma_remove_undoes_add<W>(
    state: HandlerState<W>,
    ranges: Seq<GuestRange>,
    region: MemoryRegion,
    local_addr: u64,
)
    requires
        crate::vhost_user::memory_map::mappings_have_regions(state.mappings, ranges),
        forall|i: int| 0 <= i < ranges.len() ==> (#[trigger] ranges[i]).len > 0,
        region.memory_size > 0,
        crate::virtio::guest_memory::ranges_apart(
            crate::virtio::guest_memory::with_range(ranges, region.range()),
        ),
    ensures
        crate::virtio::guest_memory::with_range(ranges, region.range()).contains(region.range()),
        crate::virtio::guest_memory::without_range(
            crate::virtio::guest_memory::with_range(ranges, region.range()),
            region.guest_phys_addr,
        ) == ranges,
        state.region_added(region, local_addr).region_removed(region) == state,
{
    crate::vhost_user::memory_map::lemma_new_region_starts_elsewhere(
        state.mappings,
        ranges,
        region.range(),
    );
    crate::virtio::guest_memory::lemma_without_undoes_with(ranges, region.range());
    crate::vhost_user::memory_map::lemma_without_absent(state.mappings, region.guest_phys_addr);
    let added = state.mappings.push(AddrMapping::of_region(region, local_addr));
    assert(added.drop_last() =~= state.mappings);
}

} // verus!
