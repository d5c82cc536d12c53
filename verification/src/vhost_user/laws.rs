//! What holds of a back-end, whatever a front-end asks of it.

use crate::events::manager::{ControlOperation, EpollEvent, EpollRequest};
use crate::vhost_user::backend::{VhostUserDevice, VhostUserDeviceImplementer};
use crate::vhost_user::handler::{
    BackendFlags, VhostUserHandler, VhostUserHandlerError, VringOutcome,
};
use crate::vhost_user::memory_map::{AddrMapping, MappedRegion, MemoryFault, MemoryRegion};
use crate::vhost_user::state::{HandlerState, VhostUserError, VringState};
use crate::vhost_user::vring::{EpollEntry, KickUpdate, VringView};
use crate::virtio::device::{DeviceError, VirtioDevice};
use crate::virtio::guest_memory::GuestRange;
use crate::virtio::virtqueue::{QueueFields, VirtQueueError};
use vm_memory::GuestMemoryMmap;
use vstd::prelude::*;

verus! {

/// What one of the instances that watch a ring is asked by some updates, in their order.
pub open spec fn requests_for(updates: Seq<KickUpdate>, entry: int) -> Seq<EpollRequest>
    decreases updates.len(),
{
    if updates.len() == 0 {
        seq![]
    } else {
        let before = requests_for(updates.drop_last(), entry);
        if updates.last().entry == entry {
            before.push(updates.last().request)
        } else {
            before
        }
    }
}

proof fn lemma_requests_of_both(first: Seq<KickUpdate>, second: Seq<KickUpdate>, entry: int)
    ensures
        requests_for(first + second, entry) == requests_for(first, entry) + requests_for(
            second,
            entry,
        ),
    decreases second.len(),
{
    if second.len() == 0 {
        assert(first + second =~= first);
        assert(requests_for(first, entry) + requests_for(second, entry) =~= requests_for(
            first,
            entry,
        ));
    } else {
        lemma_requests_of_both(first, second.drop_last(), entry);
        assert((first + second).drop_last() =~= first + second.drop_last());
        assert((first + second).last() == second.last());
        assert(requests_for(first + second, entry) =~= requests_for(first, entry) + requests_for(
            second,
            entry,
        ));
    }
}

/// Asks an instance to report a descriptor as readable, with the given token.
pub open spec fn watch(fd: i32, token: u64) -> EpollRequest {
    EpollRequest {
        operation: ControlOperation::Add,
        fd,
        event: EpollEvent { events: 0x1, data: token },
    }
}

/// What makes an instance follow a change of the kick descriptor: it forgets the old descriptor, if
/// there was one, and then watches the new one, if there is one.
pub open spec fn follow_kick(
    requests: Seq<EpollRequest>,
    token: u64,
    old_kick: Option<i32>,
    new_kick: Option<i32>,
) -> bool {
    let forgets = if old_kick is Some {
        1int
    } else {
        0
    };
    let watches = if new_kick is Some {
        1int
    } else {
        0
    };
    &&& requests.len() == forgets + watches
    &&& old_kick matches Some(fd) ==> requests[0].operation == ControlOperation::Delete
        && requests[0].fd == fd
    &&& new_kick matches Some(fd) ==> requests[forgets] == watch(fd, token)
}

/// When the kick descriptor of a ring changes, every instance that still exists follows, with its own
/// token, and the others are asked nothing.
pub proof fn lemma_instances_follow_the_kick<W>(
    epolls: Seq<EpollEntry<W>>,
    live: Seq<Option<i32>>,
    old_kick: Option<i32>,
    new_kick: Option<i32>,
    entry: int,
)
    requires
        epolls.len() == live.len() <= usize::MAX,
        0 <= entry < epolls.len(),
    ensures
        ({
            let requests = requests_for(
                crate::vhost_user::vring::kick_updates(epolls, live, old_kick, new_kick),
                entry,
            );
            if live[entry] is Some {
                follow_kick(requests, epolls[entry].token, old_kick, new_kick)
            } else {
                requests.len() == 0
            }
        }),
{
    lemma_prefix_follows_the_kick(epolls, live, old_kick, new_kick, entry);
}

proof fn lemma_prefix_follows_the_kick<W>(
    epolls: Seq<EpollEntry<W>>,
    live: Seq<Option<i32>>,
    old_kick: Option<i32>,
    new_kick: Option<i32>,
    entry: int,
)
    requires
        epolls.len() <= live.len() <= usize::MAX,
        0 <= entry,
    ensures
        ({
            let requests = requests_for(
                crate::vhost_user::vring::kick_updates(epolls, live, old_kick, new_kick),
                entry,
            );
            if entry < epolls.len() && live[entry] is Some {
                follow_kick(requests, epolls[entry].token, old_kick, new_kick)
            } else {
                requests.len() == 0
            }
        }),
    decreases epolls.len(),
{
    if epolls.len() > 0 {
        let last = epolls.len() - 1;
        let shorter = epolls.drop_last();
        lemma_prefix_follows_the_kick(shorter, live, old_kick, new_kick, entry);
        if live[last] is Some {
            let before = crate::vhost_user::vring::kick_updates(shorter, live, old_kick, new_kick);
            let own = crate::vhost_user::vring::entry_updates(
                last as usize,
                epolls[last].token,
                old_kick,
                new_kick,
            );
            lemma_requests_of_both(before, own, entry);
            reveal_with_fuel(requests_for, 3);
            if own.len() == 2 {
                assert(own.drop_last().drop_last() =~= seq![]);
                assert(own.drop_last().last() == own[0]);
            } else if own.len() == 1 {
                assert(own.drop_last() =~= seq![]);
            }
        }
    }
}

/// A stopped ring that gets a kick descriptor is started, and every instance that waits for it is
/// asked to watch that descriptor, with its own token, and nothing else. A started ring stays so, and
/// the instances follow from the old descriptor to the new one. A stopped ring that gets none stays
/// stopped, and nothing is asked.
pub proof fn lemma_kicked_ring_is_watched<W>(
    state: HandlerState<W>,
    index: int,
    fd: Option<i32>,
    live: Seq<Option<i32>>,
    entry: int,
)
    requires
        0 <= index < state.vrings.len(),
        state.vrings[index].epolls.len() == live.len() <= usize::MAX,
        0 <= entry < live.len(),
    ensures
        ({
            let ring = state.vrings[index];
            let kicked = state.with_vring(index, ring.with_kick(fd));
            let after = kicked.initialized(index).vrings[index];
            let updates = ring.kick_change_updates(live, fd) + kicked.initialize_updates(
                index,
                live,
            );
            let requests = requests_for(updates, entry);
            &&& after.kick == fd
            &&& after.queue.ready == (ring.queue.ready || fd is Some)
            &&& live[entry] is None ==> requests.len() == 0
            &&& live[entry] is Some && !ring.queue.ready ==> follow_kick(
                requests,
                ring.epolls[entry].token,
                None,
                fd,
            )
            &&& live[entry] is Some && ring.queue.ready ==> follow_kick(
                requests,
                ring.epolls[entry].token,
                ring.kick,
                fd,
            )
        }),
{
    let ring = state.vrings[index];
    let kicked = state.with_vring(index, ring.with_kick(fd));
    let changed = ring.kick_change_updates(live, fd);
    let initial = kicked.initialize_updates(index, live);
    lemma_requests_of_both(changed, initial, entry);
    lemma_instances_follow_the_kick(ring.epolls, live, ring.kick, fd, entry);
    lemma_instances_follow_the_kick(ring.epolls, live, None, fd, entry);
    assert(requests_for(Seq::<KickUpdate>::empty(), entry).len() == 0);
    if initial.len() == 0 {
        assert(requests_for(initial, entry).len() == 0);
        assert(requests_for(changed, entry) + requests_for(initial, entry) =~= requests_for(
            changed,
            entry,
        ));
    }
    if changed.len() == 0 {
        assert(requests_for(changed, entry).len() == 0);
        assert(requests_for(changed, entry) + requests_for(initial, entry) =~= requests_for(
            initial,
            entry,
        ));
    }
    if ring.queue.ready {
        assert(initial.len() == 0);
    } else {
        assert(changed.len() == 0);
    }
}

/// A ring that gets a call descriptor is started if it has a kick descriptor, and then every instance
/// that waits for it is asked to watch the kick. Otherwise nothing is asked.
pub proof fn lemma_called_ring_is_watched<W>(
    state: HandlerState<W>,
    index: int,
    fd: Option<i32>,
    live: Seq<Option<i32>>,
    entry: int,
)
    requires
        0 <= index < state.vrings.len(),
        state.vrings[index].epolls.len() == live.len() <= usize::MAX,
        0 <= entry < live.len(),
    ensures
        ({
            let ring = state.vrings[index];
            let called = state.with_vring(index, ring.with_call(fd));
            let after = called.initialized(index).vrings[index];
            let requests = requests_for(called.initialize_updates(index, live), entry);
            &&& after.call == fd
            &&& after.kick == ring.kick
            &&& after.queue.ready == (ring.queue.ready || ring.kick is Some)
            &&& if live[entry] is Some && !ring.queue.ready {
                follow_kick(requests, ring.epolls[entry].token, None, ring.kick)
            } else {
                requests.len() == 0
            }
        }),
{
    let ring = state.vrings[index];
    lemma_instances_follow_the_kick(ring.epolls, live, None, ring.kick, entry);
    assert(requests_for(Seq::<KickUpdate>::empty(), entry).len() == 0);
}

/// A ring that is stopped is forgotten by every instance that watches it, as long as the ring has a
/// kick descriptor, and nothing is watched instead.
pub proof fn lemma_stopped_ring_is_forgotten<W>(
    ring: VringView<W>,
    live: Seq<Option<i32>>,
    entry: int,
)
    requires
        ring.epolls.len() == live.len() <= usize::MAX,
        0 <= entry < live.len(),
    ensures
        ({
            let requests = requests_for(ring.stop_updates(live), entry);
            if live[entry] is Some {
                follow_kick(requests, ring.epolls[entry].token, ring.kick, None)
            } else {
                requests.len() == 0
            }
        }),
{
    lemma_instances_follow_the_kick(ring.epolls, live, ring.kick, None, entry);
    assert(requests_for(Seq::<KickUpdate>::empty(), entry).len() == 0);
}

/// An instance that carries out what it is asked watches the kick of a ring that was started, and does
/// not watch that of a ring that was stopped. What it watches besides stays.
pub proof fn lemma_instance_watches_the_kick(
    interest: Map<i32, EpollEvent>,
    requests: Seq<EpollRequest>,
    fd: i32,
    token: u64,
)
    requires
        !interest.dom().contains(fd),
        follow_kick(requests, token, None, Some(fd)),
    ensures
        requests.len() == 1,
        requests[0].applied(interest) == Some(
            interest.insert(fd, EpollEvent { events: 0x1, data: token }),
        ),
        forall|forgotten: Seq<EpollRequest>|
            #![trigger follow_kick(forgotten, token, Some(fd), None)]
            follow_kick(forgotten, token, Some(fd), None) ==> forgotten.len() == 1
                && forgotten[0].applied(requests[0].applied(interest)->0) == Some(interest),
{
    let watched = interest.insert(fd, EpollEvent { events: 0x1, data: token });
    assert(watched.remove(fd) =~= interest);
}

/// A ring is started when it is initialised exactly if it is stopped and has a kick descriptor. That
/// changes nothing else of any ring. It activates the device exactly if that is not active and the
/// front-end has shared memory.
pub proof fn lemma_what_starts_a_ring<W>(state: HandlerState<W>, index: int, other: int)
    requires
        0 <= index < state.vrings.len(),
        0 <= other < state.vrings.len(),
    ensures
        ({
            let ring = state.vrings[index];
            let after = state.initialized(index);
            let starts = !ring.queue.ready && ring.kick is Some;
            &&& after.vrings.len() == state.vrings.len()
            &&& other != index ==> after.vrings[other] == state.vrings[other]
            &&& after.vrings[index].queue.ready == (ring.queue.ready || starts)
            &&& after.vrings[index].enabled == ring.enabled
            &&& after.vrings[index].kick == ring.kick
            &&& after.vrings[index].call == ring.call
            &&& after.vrings[index].err == ring.err
            &&& after.vrings[index].epolls == ring.epolls
            &&& after.vrings[index].queue == (QueueFields {
                ready: ring.queue.ready || starts,
                ..ring.queue
            })
            &&& state.activates(index) <==> starts && !state.device_activated
                && state.memory_updated
            &&& after.device_activated == (state.device_activated || state.activates(index))
            &&& after.memory_updated == state.memory_updated
            &&& after.owned == state.owned
            &&& after.acked_features == state.acked_features
            &&& after.mappings == state.mappings
        }),
{
}

/// Which features the front-end has chosen decides on every ring alike: event indices are used
/// exactly if the bit for them is among the features, and the rings are enabled at once exactly if
/// the bit for protocol features is not. What the rings hold besides stays.
pub proof fn lemma_features_decide_on_rings<W>(state: HandlerState<W>, features: u64, i: int)
    requires
        0 <= i < state.vrings.len(),
    ensures
        ({
            let after = state.features_set(features);
            let ring = after.vrings[i];
            let before = state.vrings[i];
            &&& after.vrings.len() == state.vrings.len()
            &&& ring.queue.event_idx_enabled <==> features & 0x2000_0000 != 0
            &&& ring.queue == (QueueFields {
                event_idx_enabled: ring.queue.event_idx_enabled,
                ..before.queue
            })
            &&& ring.enabled <==> before.enabled || features & 0x4000_0000 == 0
            &&& ring.kick == before.kick
            &&& ring.call == before.call
            &&& ring.err == before.err
            &&& ring.epolls == before.epolls
            &&& ring.used_indices == before.used_indices
        }),
{
    assert(1u64 << 29u32 == 0x2000_0000u64) by (bit_vector);
}

/// Features that were chosen are remembered as they were chosen, and replace those that were chosen
/// before. Nothing but the features and the rings changes.
pub proof fn lemma_chosen_features_are_kept<W>(state: HandlerState<W>, features: u64, later: u64)
    ensures
        ({
            let after = state.features_set(features);
            &&& after.acked_features == features
            &&& after.features_acked
            &&& after.features_set(later).acked_features == later
            &&& after.device_activated == state.device_activated
            &&& after.memory_updated == state.memory_updated
            &&& after.requested_queues == state.requested_queues
            &&& after.owned == state.owned
            &&& after.acked_protocol_features == state.acked_protocol_features
            &&& after.mappings == state.mappings
            &&& after.uffd == state.uffd
        }),
{
}

/// Claiming a back-end and giving it up change only who owns it. What was negotiated is lost with the
/// claim, but neither the memory nor the rings are.
pub proof fn lemma_claims_change_nothing_else<W>(state: HandlerState<W>)
    ensures
        state.claimed() == (HandlerState { owned: true, ..state }),
        state.claim_result() is Ok <==> !state.owned,
        ({
            let after = state.disowned();
            &&& !after.owned
            &&& !after.features_acked
            &&& after.acked_features == 0
            &&& after.acked_protocol_features == 0
            &&& after.vrings == state.vrings
            &&& after.mappings == state.mappings
            &&& after.memory_updated == state.memory_updated
            &&& after.device_activated == state.device_activated
            &&& after.requested_queues == state.requested_queues
            &&& after.uffd == state.uffd
        }),
{
}

/// A reset of the device disables and stops every ring, and leaves where the rings are and what is
/// in them, whether the device is active, and the user fault handler.
pub proof fn lemma_reset_keeps_the_rings<W>(state: HandlerState<W>, i: int)
    requires
        0 <= i < state.vrings.len(),
    ensures
        ({
            let after = state.device_reset();
            let ring = after.vrings[i];
            let before = state.vrings[i];
            &&& after.vrings.len() == state.vrings.len()
            &&& !ring.enabled
            &&& !ring.queue.ready
            &&& ring.queue == (QueueFields { ready: false, ..before.queue })
            &&& ring.kick == before.kick
            &&& ring.call == before.call
            &&& ring.err == before.err
            &&& ring.epolls == before.epolls
            &&& after.device_activated == state.device_activated
            &&& after.memory_updated == state.memory_updated
            &&& after.uffd == state.uffd
            &&& after.acked_features == 0
            &&& !after.features_acked
        }),
{
}

/// A request about one ring changes no other ring, and of that ring only what the request is about.
pub proof fn lemma_rings_change_one_at_a_time<W>(
    state: HandlerState<W>,
    index: int,
    other: int,
    base: u32,
    next_used: u16,
)
    requires
        0 <= index < state.vrings.len(),
        0 <= other < state.vrings.len(),
        other != index,
    ensures
        state.base_set(index, base).vrings[other] == state.vrings[other],
        state.used_idx_set(index, next_used).vrings[other] == state.vrings[other],
        state.used_idx_set(index, next_used).vrings[index].queue.next_used == next_used,
        state.used_idx_set(index, next_used).vrings[index].queue.next_avail
            == state.vrings[index].queue.next_avail,
        state.base_set(index, base).vrings[index].queue.next_used
            == state.vrings[index].queue.next_used,
        state.base_set(index, base).vrings[index].kick == state.vrings[index].kick,
        state.base_set(index, base).vrings[index].call == state.vrings[index].call,
        state.base_set(index, base).vrings[index].enabled == state.vrings[index].enabled,
        state.base_set(index, base).vrings[index].queue.ready == state.vrings[index].queue.ready,
        state.base_set(index, base).mappings == state.mappings,
        state.base_set(index, base).acked_features == state.acked_features,
        state.used_idx_set(index, next_used).mappings == state.mappings,
{
}

/// What can be set of a ring is what is read of it afterwards, and nothing else of the ring changes.
pub proof fn lemma_ring_keeps_what_was_set<W>(
    ring: VringView<W>,
    fd: Option<i32>,
    switch: bool,
    index: u16,
)
    ensures
        ring.with_kick(fd) == (VringView { kick: fd, ..ring }),
        ring.with_call(fd) == (VringView { call: fd, ..ring }),
        ring.with_err(fd) == (VringView { err: fd, ..ring }),
        ring.with_enabled(switch) == (VringView { enabled: switch, ..ring }),
        ring.with_ready(switch).queue.ready == switch,
        ring.with_ready(switch).with_ready(ring.queue.ready) == ring,
        ring.with_used_index(index).used_indices.last() == index,
        ring.with_used_index(index).queue == ring.queue,
        ring.processable() <==> ring.enabled && ring.queue.ready,
{
}

/// A new ring can be used for nothing yet: it is disabled, stopped, at the start of its rings, and has
/// no descriptors and no instances that wait for it.
pub proof fn lemma_new_ring<W>(max_size: u16)
    ensures
        ({
            let ring = VringView::<W>::fresh(max_size);
            &&& ring.queue.max_size == max_size
            &&& ring.queue.size == max_size
            &&& !ring.queue.ready
            &&& !ring.queue.event_idx_enabled
            &&& ring.queue.next_avail == 0
            &&& ring.queue.next_used == 0
            &&& !ring.enabled
            &&& ring.kick is None
            &&& ring.call is None
            &&& ring.err is None
            &&& ring.epolls.len() == 0
            &&& !ring.processable()
        }),
{
}

/// Addresses of the parts of a ring are taken over exactly if each of them is aligned as it has to be.
/// Then each part is where it was placed, and otherwise the first that is not aligned is told.
pub proof fn lemma_ring_is_where_it_was_placed<W>(
    ring: VringView<W>,
    desc_table: u64,
    avail_ring: u64,
    used_ring: u64,
)
    ensures
        ({
            let result = crate::vhost_user::vring::queue_info_check(
                desc_table,
                avail_ring,
                used_ring,
            );
            let after = ring.with_queue_info(desc_table, avail_ring, used_ring);
            &&& result is Ok <==> desc_table % 16 == 0 && avail_ring % 2 == 0 && used_ring % 4 == 0
            &&& result is Ok ==> after.queue == (QueueFields {
                desc_table,
                avail_ring,
                used_ring,
                ..ring.queue
            })
            &&& desc_table % 16 != 0 ==> after == ring && result == Err::<(), VirtQueueError>(
                VirtQueueError::InvalidDescTableAlign,
            )
            &&& desc_table % 16 == 0 && avail_ring % 2 != 0 ==> result == Err::<
                (),
                VirtQueueError,
            >(VirtQueueError::InvalidAvailRingAlign)
            &&& desc_table % 16 == 0 && avail_ring % 2 == 0 && used_ring % 4 != 0 ==> result
                == Err::<(), VirtQueueError>(VirtQueueError::InvalidUsedRingAlign)
            &&& after.kick == ring.kick
            &&& after.call == ring.call
            &&& after.enabled == ring.enabled
            &&& after.epolls == ring.epolls
            &&& after.queue.ready == ring.queue.ready
            &&& after.queue.next_avail == ring.queue.next_avail
            &&& after.queue.next_used == ring.queue.next_used
        }),
{
}

/// Instances that exist no more are forgotten, and the one with a given descriptor, and no others. The
/// others stay in their order.
pub proof fn lemma_retained_instances<W>(
    epolls: Seq<EpollEntry<W>>,
    live: Seq<Option<i32>>,
    without: Option<i32>,
    entry: EpollEntry<W>,
    exists_as: Option<i32>,
)
    requires
        epolls.len() == live.len(),
    ensures
        crate::vhost_user::vring::retained_entries(Seq::<EpollEntry<W>>::empty(), live, without)
            == Seq::<EpollEntry<W>>::empty(),
        ({
            let before = crate::vhost_user::vring::retained_entries(epolls, live, without);
            let after = crate::vhost_user::vring::retained_entries(
                epolls.push(entry),
                live.push(exists_as),
                without,
            );
            &&& exists_as is None ==> after == before
            &&& exists_as is Some && without is None ==> after == before.push(entry)
            &&& exists_as is Some && without == exists_as ==> after == before
            &&& exists_as is Some && without != exists_as ==> after == before.push(entry)
        }),
{
    assert(epolls.push(entry).drop_last() =~= epolls);
    lemma_retained_by_their_own(epolls, live, live.push(exists_as), without);
}

proof fn lemma_retained_by_their_own<W>(
    epolls: Seq<EpollEntry<W>>,
    live: Seq<Option<i32>>,
    more: Seq<Option<i32>>,
    without: Option<i32>,
)
    requires
        epolls.len() <= live.len() <= more.len(),
        forall|i: int| 0 <= i < live.len() ==> #[trigger] live[i] == more[i],
    ensures
        crate::vhost_user::vring::retained_entries(epolls, live, without)
            == crate::vhost_user::vring::retained_entries(epolls, more, without),
    decreases epolls.len(),
{
    if epolls.len() > 0 {
        lemma_retained_by_their_own(epolls.drop_last(), live, more, without);
        assert(live[epolls.len() - 1] == more[epolls.len() - 1]);
    }
}

/// The first region that holds an address decides where the address is in the guest: as far from the
/// start of the region there as it is in the front-end. An address that no region holds is nowhere.
pub proof fn lemma_first_region_decides(mappings: Seq<AddrMapping>, first: int, vmm_va: u64)
    requires
        0 <= first <= mappings.len(),
        forall|i: int|
            0 <= i < first ==> !((#[trigger] mappings[i]).vmm_addr <= vmm_va
                < mappings[i].vmm_addr + mappings[i].size),
        first < mappings.len() ==> mappings[first].vmm_addr <= vmm_va < mappings[first].vmm_addr
            + mappings[first].size,
    ensures
        first < mappings.len() ==> crate::vhost_user::memory_map::translated(mappings, vmm_va)
            == Some(mappings[first].gpa_base + (vmm_va - mappings[first].vmm_addr)),
        first == mappings.len() ==> crate::vhost_user::memory_map::translated(
            mappings,
            vmm_va,
        ) is None,
    decreases mappings.len(),
{
    if first > 0 {
        let rest = mappings.skip(1);
        assert(!(mappings[0].vmm_addr <= vmm_va < mappings[0].vmm_addr + mappings[0].size));
        assert forall|i: int| 0 <= i < first - 1 implies !((#[trigger] rest[i]).vmm_addr <= vmm_va
            < rest[i].vmm_addr + rest[i].size) by {
            assert(rest[i] == mappings[i + 1]);
        }
        lemma_first_region_decides(rest, first - 1, vmm_va);
    }
}

/// An address of the front-end in a region that was shared leads to the same byte of the region in the
/// guest, and the mapping keeps where the back-end has the region.
pub proof fn lemma_shared_region_is_translated(region: MemoryRegion, local_addr: u64, offset: u64)
    requires
        offset < region.memory_size,
        region.user_addr + region.memory_size <= u64::MAX,
    ensures
        ({
            let mapping = AddrMapping::of_region(region, local_addr);
            &&& mapping.local_addr == local_addr
            &&& mapping.size == region.memory_size
            &&& mapping.range() == region.range()
            &&& region.range().start == region.guest_phys_addr
            &&& region.range().len == region.memory_size
            &&& crate::vhost_user::memory_map::translated(
                seq![mapping],
                (region.user_addr + offset) as u64,
            ) == Some(region.guest_phys_addr + offset)
        }),
{
    let mapping = AddrMapping::of_region(region, local_addr);
    lemma_first_region_decides(seq![mapping], 0, (region.user_addr + offset) as u64);
}

/// A table of regions replaces what was shared before: there is one mapping for each region, in
/// their order, and from then on there is memory. Nothing else changes.
pub proof fn lemma_table_replaces_the_memory<W, E>(
    state: HandlerState<W>,
    mapped: Seq<Result<MappedRegion, E>>,
    i: int,
)
    requires
        0 <= i < mapped.len(),
        mapped[i] is Ok,
    ensures
        ({
            let after = state.memory_shared(
                crate::vhost_user::memory_map::region_mappings(mapped),
            );
            let region = mapped[i]->Ok_0.region;
            &&& after.memory_updated
            &&& after.mappings.len() == mapped.len()
            &&& after.mappings[i].vmm_addr == region.user_addr
            &&& after.mappings[i].gpa_base == region.guest_phys_addr
            &&& after.mappings[i].size == region.memory_size
            &&& after.mappings[i].local_addr == mapped[i]->Ok_0.local_addr
            &&& crate::vhost_user::memory_map::mapped_ranges(mapped)[i].start
                == region.guest_phys_addr
            &&& crate::vhost_user::memory_map::mapped_ranges(mapped)[i].len == region.memory_size
            &&& after.vrings == state.vrings
            &&& after.device_activated == state.device_activated
            &&& after.acked_features == state.acked_features
            &&& after.owned == state.owned
        }),
{
}

/// A region that is added comes behind the others and leaves them as they were, and removing a region
/// leaves exactly the mappings that start elsewhere. Neither makes a back-end believe that a table
/// was shared.
pub proof fn lemma_regions_come_and_go<W>(
    state: HandlerState<W>,
    region: MemoryRegion,
    local_addr: u64,
    mapping: AddrMapping,
)
    ensures
        ({
            let added = state.region_added(region, local_addr);
            let removed = state.region_removed(region);
            &&& added.mappings.len() == state.mappings.len() + 1
            &&& added.mappings.drop_last() == state.mappings
            &&& added.mappings.last().vmm_addr == region.user_addr
            &&& added.mappings.last().gpa_base == region.guest_phys_addr
            &&& added.mappings.last().size == region.memory_size
            &&& added.mappings.last().local_addr == local_addr
            &&& added.memory_updated == state.memory_updated
            &&& added.vrings == state.vrings
            &&& removed.mappings.contains(mapping) <==> state.mappings.contains(mapping)
                && mapping.gpa_base != region.guest_phys_addr
            &&& removed.memory_updated == state.memory_updated
            &&& removed.vrings == state.vrings
        }),
{
    assert(state.region_added(region, local_addr).mappings.drop_last() =~= state.mappings);
    lemma_mappings_left(state.mappings, region.guest_phys_addr, mapping);
}

proof fn lemma_mappings_left(mappings: Seq<AddrMapping>, gpa_base: u64, mapping: AddrMapping)
    ensures
        crate::vhost_user::memory_map::mappings_without(mappings, gpa_base).contains(mapping)
            <==> mappings.contains(mapping) && mapping.gpa_base != gpa_base,
    decreases mappings.len(),
{
    if mappings.len() > 0 {
        let shorter = mappings.drop_last();
        lemma_mappings_left(shorter, gpa_base, mapping);
        crate::virtio::guest_memory::lemma_push_contains(shorter, mappings.last(), mapping);
        crate::virtio::guest_memory::lemma_push_contains(
            crate::vhost_user::memory_map::mappings_without(shorter, gpa_base),
            mappings.last(),
            mapping,
        );
        assert(shorter.push(mappings.last()) =~= mappings);
    }
}

/// The device gets the handle of each ring under the number of the ring, and no other.
pub proof fn lemma_handles_are_numbered<Q>(handles: Seq<Q>, number: usize)
    ensures
        crate::vhost_user::state::numbered(handles).dom().contains(number) <==> number
            < handles.len(),
        number < handles.len() ==> crate::vhost_user::state::numbered(handles)[number]
            == handles[number as int],
{
}

/// A front-end is told that a request went well exactly if the device, and the workers that it
/// needs, did what was asked.
pub proof fn lemma_front_end_is_told<E>(returned: Result<(), DeviceError>, started: Result<(), E>)
    ensures
        crate::vhost_user::state::device_result(returned) is Ok <==> returned is Ok,
        crate::vhost_user::state::workers_result(started) is Ok <==> started is Ok,
        crate::vhost_user::state::device_result(returned) matches Err(e) ==> e
            == VhostUserError::BackendInternalError,
        crate::vhost_user::state::workers_result(started) matches Err(e) ==> e
            == VhostUserError::BackendInternalError,
{
}

/// The driver can choose any number of entries that is a power of two and not more than the device
/// offers. Other numbers leave the queue as it is. Nothing but the number of entries changes.
pub proof fn lemma_sizes_of_queues(fields: QueueFields, size: u16)
    ensures
        ({
            let after = crate::virtio::virtqueue::with_size(fields, size);
            &&& after == (QueueFields { size: after.size, ..fields })
            &&& size == 0 || size > fields.max_size ==> after.size == fields.size
            &&& after.size == size || after.size == fields.size
            &&& crate::virtio::virtqueue::is_queue_size(size) && size <= fields.max_size
                ==> after.size == size
        }),
{
}

/// A ring that was stopped and gets a kick descriptor is started, and every instance that waits for it
/// is asked to watch that descriptor, with its own token. The instances of a ring that was started
/// follow from the old descriptor to the new one.
pub proof fn lemma_set_vring_kick<T: VhostUserDevice, W>(
    index: u8,
    fd: Option<i32>,
    live: &[Option<i32>],
    handles: Vec<T::Queue>,
    entry: int,
)
    requires
        live@.len() <= usize::MAX,
        0 <= entry < live@.len(),
    ensures
        forall|handler: &mut VhostUserHandler<T, W>, outcome: VringOutcome<()>|
            #![trigger call_ensures(VhostUserHandler::<T, W>::set_vring_kick, (handler, index, fd, live, handles), outcome)]
            call_ensures(
                VhostUserHandler::<T, W>::set_vring_kick,
                (handler, index, fd, live, handles),
                outcome,
            ) && index < (*handler)@.vrings.len() && (*handler)@.vrings[index as int].epolls.len()
                == live@.len() ==> {
                let ring = (*handler)@.vrings[index as int];
                let after = (*final(handler))@.vrings[index as int];
                let requests = requests_for(outcome.updates@, entry);
                &&& after.kick == fd
                &&& after.queue.ready == (ring.queue.ready || fd is Some)
                &&& live@[entry] is None ==> requests.len() == 0
                &&& live@[entry] is Some ==> follow_kick(
                    requests,
                    ring.epolls[entry].token,
                    if ring.queue.ready {
                        ring.kick
                    } else {
                        None
                    },
                    fd,
                )
            },
{
    assert forall|handler: &mut VhostUserHandler<T, W>, outcome: VringOutcome<()>|
        #![trigger call_ensures(VhostUserHandler::<T, W>::set_vring_kick, (handler, index, fd, live, handles), outcome)]
        call_ensures(
            VhostUserHandler::<T, W>::set_vring_kick,
            (handler, index, fd, live, handles),
            outcome,
        ) && index < (*handler)@.vrings.len() && (*handler)@.vrings[index as int].epolls.len()
            == live@.len() implies {
        let ring = (*handler)@.vrings[index as int];
        let after = (*final(handler))@.vrings[index as int];
        let requests = requests_for(outcome.updates@, entry);
        &&& after.kick == fd
        &&& after.queue.ready == (ring.queue.ready || fd is Some)
        &&& live@[entry] is None ==> requests.len() == 0
        &&& live@[entry] is Some ==> follow_kick(
            requests,
            ring.epolls[entry].token,
            if ring.queue.ready {
                ring.kick
            } else {
                None
            },
            fd,
        )
    } by {
        lemma_kicked_ring_is_watched((*handler)@, index as int, fd, live@, entry);
    }
}

/// A ring that was stopped and has a kick descriptor is started when it gets a call descriptor, and
/// every instance that waits for it is asked to watch the kick. Otherwise nothing is asked.
pub proof fn lemma_set_vring_call<T: VhostUserDevice, W>(
    index: u8,
    fd: Option<i32>,
    live: &[Option<i32>],
    handles: Vec<T::Queue>,
    entry: int,
)
    requires
        live@.len() <= usize::MAX,
        0 <= entry < live@.len(),
    ensures
        forall|handler: &mut VhostUserHandler<T, W>, outcome: VringOutcome<()>|
            #![trigger call_ensures(VhostUserHandler::<T, W>::set_vring_call, (handler, index, fd, live, handles), outcome)]
            call_ensures(
                VhostUserHandler::<T, W>::set_vring_call,
                (handler, index, fd, live, handles),
                outcome,
            ) && index < (*handler)@.vrings.len() && (*handler)@.vrings[index as int].epolls.len()
                == live@.len() ==> {
                let ring = (*handler)@.vrings[index as int];
                let after = (*final(handler))@.vrings[index as int];
                let requests = requests_for(outcome.updates@, entry);
                &&& after.call == fd
                &&& after.kick == ring.kick
                &&& after.queue.ready == (ring.queue.ready || ring.kick is Some)
                &&& if live@[entry] is Some && !ring.queue.ready {
                    follow_kick(requests, ring.epolls[entry].token, None, ring.kick)
                } else {
                    requests.len() == 0
                }
            },
{
    assert forall|handler: &mut VhostUserHandler<T, W>, outcome: VringOutcome<()>|
        #![trigger call_ensures(VhostUserHandler::<T, W>::set_vring_call, (handler, index, fd, live, handles), outcome)]
        call_ensures(
            VhostUserHandler::<T, W>::set_vring_call,
            (handler, index, fd, live, handles),
            outcome,
        ) && index < (*handler)@.vrings.len() && (*handler)@.vrings[index as int].epolls.len()
            == live@.len() implies {
        let ring = (*handler)@.vrings[index as int];
        let after = (*final(handler))@.vrings[index as int];
        let requests = requests_for(outcome.updates@, entry);
        &&& after.call == fd
        &&& after.kick == ring.kick
        &&& after.queue.ready == (ring.queue.ready || ring.kick is Some)
        &&& if live@[entry] is Some && !ring.queue.ready {
            follow_kick(requests, ring.epolls[entry].token, None, ring.kick)
        } else {
            requests.len() == 0
        }
    } by {
        lemma_called_ring_is_watched((*handler)@, index as int, fd, live@, entry);
    }
}

/// Features are accepted exactly if the device offers all of them. Then every ring uses event indices
/// exactly if the bit for them is among the features, and is enabled at once if the bit for protocol
/// features is not, and otherwise as it was.
pub proof fn lemma_set_features<T: VhostUserDevice, W>(features: u64)
    ensures
        forall|handler: &mut VhostUserHandler<T, W>, result: Result<(), VhostUserError>| #[trigger]
            call_ensures(VhostUserHandler::<T, W>::set_features, (handler, features), result) ==> {
                let before = (*handler)@;
                let after = (*final(handler))@;
                let offered = (*handler).spec_device().spec_avail_features();
                &&& result is Ok <==> features & !offered == 0
                &&& result is Ok ==> {
                    &&& after.acked_features == features
                    &&& after.features_acked
                    &&& after.vrings.len() == before.vrings.len()
                    &&& forall|i: int|
                        0 <= i < after.vrings.len() ==> {
                            let ring = #[trigger] after.vrings[i];
                            &&& ring.queue.event_idx_enabled <==> features & 0x2000_0000 != 0
                            &&& ring.enabled <==> before.vrings[i].enabled || features
                                & 0x4000_0000 == 0
                            &&& ring.queue.ready == before.vrings[i].queue.ready
                            &&& ring.kick == before.vrings[i].kick
                            &&& ring.call == before.vrings[i].call
                        }
                }
                &&& result is Err ==> after == before && result == Err::<(), VhostUserError>(
                    VhostUserError::InvalidParam,
                )
            },
{
    assert(1u64 << 29u32 == 0x2000_0000u64) by (bit_vector);
}

/// The base of a ring that was set is told when the ring is stopped, as far as it fits the ring, and
/// then the ring has neither a kick nor a call descriptor. Every instance that watched the ring is
/// asked to forget it.
pub proof fn lemma_base_is_told<T: VhostUserDevice, W>(
    index: u32,
    base: u32,
    live: &[Option<i32>],
    entry: int,
)
    requires
        live@.len() <= usize::MAX,
        0 <= entry < live@.len(),
    ensures
        forall|
            first: &mut VhostUserHandler<T, W>,
            set: Result<(), VhostUserError>,
            second: &mut VhostUserHandler<T, W>,
            outcome: VringOutcome<VringState>,
        |
            #![trigger call_ensures(VhostUserHandler::<T, W>::set_vring_base, (first, index, base), set), call_ensures(VhostUserHandler::<T, W>::get_vring_base, (second, index, live), outcome)]
            call_ensures(VhostUserHandler::<T, W>::set_vring_base, (first, index, base), set)
                && call_ensures(
                VhostUserHandler::<T, W>::get_vring_base,
                (second, index, live),
                outcome,
            ) && *second == *final(first) && index < (*first)@.vrings.len()
                && (*first)@.vrings[index as int].epolls.len() == live@.len() ==> {
                let ring = (*first)@.vrings[index as int];
                let after = (*final(second))@.vrings[index as int];
                let requests = requests_for(outcome.updates@, entry);
                &&& set is Ok
                &&& outcome.result == Ok::<VringState, VhostUserError>(
                    VringState { index, num: base % 0x1_0000 },
                )
                &&& !after.queue.ready
                &&& after.kick is None
                &&& after.call is None
                &&& after.err == ring.err
                &&& after.enabled == ring.enabled
                &&& after.queue.next_used == ring.queue.next_used
                &&& live@[entry] is Some ==> follow_kick(
                    requests,
                    ring.epolls[entry].token,
                    ring.kick,
                    None,
                )
                &&& live@[entry] is None ==> requests.len() == 0
            },
{
    assert forall|
        first: &mut VhostUserHandler<T, W>,
        set: Result<(), VhostUserError>,
        second: &mut VhostUserHandler<T, W>,
        outcome: VringOutcome<VringState>,
    |
        #![trigger call_ensures(VhostUserHandler::<T, W>::set_vring_base, (first, index, base), set), call_ensures(VhostUserHandler::<T, W>::get_vring_base, (second, index, live), outcome)]
        call_ensures(VhostUserHandler::<T, W>::set_vring_base, (first, index, base), set)
            && call_ensures(
            VhostUserHandler::<T, W>::get_vring_base,
            (second, index, live),
            outcome,
        ) && *second == *final(first) && index < (*first)@.vrings.len()
            && (*first)@.vrings[index as int].epolls.len() == live@.len() implies {
        let ring = (*first)@.vrings[index as int];
        let after = (*final(second))@.vrings[index as int];
        let requests = requests_for(outcome.updates@, entry);
        &&& set is Ok
        &&& outcome.result == Ok::<VringState, VhostUserError>(
            VringState { index, num: base % 0x1_0000 },
        )
        &&& !after.queue.ready
        &&& after.kick is None
        &&& after.call is None
        &&& after.err == ring.err
        &&& after.enabled == ring.enabled
        &&& after.queue.next_used == ring.queue.next_used
        &&& live@[entry] is Some ==> follow_kick(
            requests,
            ring.epolls[entry].token,
            ring.kick,
            None,
        )
        &&& live@[entry] is None ==> requests.len() == 0
    } by {
        crate::vhost_user::state::lemma_base_round_trip((*first)@, index, base);
        lemma_stopped_ring_is_forgotten((*second)@.vrings[index as int], live@, entry);
    }
}

/// Requests that set something of one ring set exactly that, and are refused for a ring that does not
/// exist. A ring is enabled or disabled only if protocol features were negotiated.
pub proof fn lemma_requests_about_a_ring<T: VhostUserDevice, W>(
    number: u8,
    index: u32,
    fd: Option<i32>,
    num: u32,
    enable: bool,
)
    ensures
        forall|handler: &mut VhostUserHandler<T, W>, result: Result<(), VhostUserError>| #[trigger]
            call_ensures(VhostUserHandler::<T, W>::set_vring_err, (handler, number, fd), result)
                ==> {
                let before = (*handler)@;
                let after = (*final(handler))@;
                &&& result is Ok <==> number < before.vrings.len()
                &&& result is Err ==> after == before && result->Err_0
                    == VhostUserError::InvalidParam
                &&& result is Ok ==> after.vrings == before.vrings.update(
                    number as int,
                    VringView { err: fd, ..before.vrings[number as int] },
                )
            },
        forall|handler: &mut VhostUserHandler<T, W>, result: Result<(), VhostUserError>| #[trigger]
            call_ensures(
                VhostUserHandler::<T, W>::set_vring_enable,
                (handler, index, enable),
                result,
            ) ==> {
                let before = (*handler)@;
                let after = (*final(handler))@;
                let negotiated = before.acked_features & 0x4000_0000 != 0;
                &&& result is Ok <==> negotiated && index < before.vrings.len()
                &&& !negotiated ==> result == Err::<(), VhostUserError>(
                    VhostUserError::InactiveFeature(0x4000_0000),
                )
                &&& negotiated && result is Err ==> result->Err_0 == VhostUserError::InvalidParam
                &&& result is Err ==> after == before
                &&& result is Ok ==> after.vrings == before.vrings.update(
                    index as int,
                    VringView { enabled: enable, ..before.vrings[index as int] },
                )
            },
        forall|handler: &mut VhostUserHandler<T, W>, result: Result<(), VhostUserError>| #[trigger]
            call_ensures(VhostUserHandler::<T, W>::set_vring_num, (handler, index, num), result)
                ==> {
                let before = (*handler)@;
                let after = (*final(handler))@;
                let offered = before.requested_queues[index as int].spec_max_size();
                &&& result is Ok <==> index < before.vrings.len() && 0 < num <= offered
                &&& result is Err ==> after == before && result->Err_0
                    == VhostUserError::InvalidParam
                &&& result is Ok && crate::virtio::virtqueue::is_queue_size(num as u16) && num
                    <= before.vrings[index as int].queue.max_size
                    ==> after.vrings[index as int].queue == (QueueFields {
                    size: num as u16,
                    ..before.vrings[index as int].queue
                })
                &&& forall|i: int|
                    0 <= i < before.vrings.len() && i != index ==> #[trigger] after.vrings[i]
                        == before.vrings[i]
            },
{
}

/// What a front-end negotiates it can rely on: protocol features are kept as they were chosen, a
/// back-end has one owner at a time, and giving up the claim undoes all that was negotiated. Nothing of
/// that touches the rings.
pub proof fn lemma_negotiations<T: VhostUserDevice, W>(features: u64)
    ensures
        forall|handler: &mut VhostUserHandler<T, W>, result: Result<(), VhostUserError>| #[trigger]
            call_ensures(
                VhostUserHandler::<T, W>::set_protocol_features,
                (handler, features),
                result,
            ) ==> {
                let before = (*handler)@;
                let after = (*final(handler))@;
                &&& result is Ok
                &&& after.acked_protocol_features == features
                &&& after.acked_features == before.acked_features
                &&& after.vrings == before.vrings
                &&& after.owned == before.owned
                &&& after.mappings == before.mappings
            },
        forall|handler: &mut VhostUserHandler<T, W>, result: Result<(), VhostUserError>| #[trigger]
            call_ensures(VhostUserHandler::<T, W>::set_owner, (handler,), result) ==> {
                let before = (*handler)@;
                let after = (*final(handler))@;
                &&& result is Ok <==> !before.owned
                &&& after.owned
                &&& after.vrings == before.vrings
                &&& after.acked_features == before.acked_features
                &&& after.mappings == before.mappings
            },
        forall|handler: &mut VhostUserHandler<T, W>, result: Result<(), VhostUserError>| #[trigger]
            call_ensures(VhostUserHandler::<T, W>::reset_owner, (handler,), result) ==> {
                let before = (*handler)@;
                let after = (*final(handler))@;
                &&& result is Ok
                &&& !after.owned
                &&& !after.features_acked
                &&& after.acked_features == 0
                &&& after.acked_protocol_features == 0
                &&& after.vrings == before.vrings
                &&& after.mappings == before.mappings
            },
{
}

/// After a reset no ring is enabled or started, and every instance that watched one is asked to forget
/// it, ring by ring. The descriptors of the rings and the memory are kept.
pub proof fn lemma_reset_device<T: VhostUserDevice, W>(
    live: &[Vec<Option<i32>>],
    ring: int,
    entry: int,
)
    requires
        0 <= ring < live@.len(),
        live@[ring]@.len() <= usize::MAX,
        0 <= entry < live@[ring]@.len(),
    ensures
        forall|handler: &mut VhostUserHandler<T, W>, updates: Vec<Vec<KickUpdate>>|
            #![trigger call_ensures(VhostUserHandler::<T, W>::reset_device, (handler, live), updates)]
            call_ensures(VhostUserHandler::<T, W>::reset_device, (handler, live), updates)
                && (*handler)@.vrings.len() == live@.len() && (*handler)@.vrings[ring].epolls.len()
                == live@[ring]@.len() ==> {
                let before = (*handler)@.vrings[ring];
                let after = (*final(handler))@.vrings[ring];
                let requests = requests_for(updates@[ring]@, entry);
                &&& !after.enabled
                &&& !after.queue.ready
                &&& after.kick == before.kick
                &&& after.call == before.call
                &&& (*final(handler))@.acked_features == 0
                &&& (*final(handler))@.mappings == (*handler)@.mappings
                &&& live@[ring]@[entry] is Some ==> follow_kick(
                    requests,
                    before.epolls[entry].token,
                    before.kick,
                    None,
                )
            },
{
    assert forall|handler: &mut VhostUserHandler<T, W>, updates: Vec<Vec<KickUpdate>>|
        #![trigger call_ensures(VhostUserHandler::<T, W>::reset_device, (handler, live), updates)]
        call_ensures(VhostUserHandler::<T, W>::reset_device, (handler, live), updates)
            && (*handler)@.vrings.len() == live@.len() && (*handler)@.vrings[ring].epolls.len()
            == live@[ring]@.len() implies {
        let before = (*handler)@.vrings[ring];
        let after = (*final(handler))@.vrings[ring];
        let requests = requests_for(updates@[ring]@, entry);
        &&& !after.enabled
        &&& !after.queue.ready
        &&& after.kick == before.kick
        &&& after.call == before.call
        &&& (*final(handler))@.acked_features == 0
        &&& (*final(handler))@.mappings == (*handler)@.mappings
        &&& live@[ring]@[entry] is Some ==> follow_kick(
            requests,
            before.epolls[entry].token,
            before.kick,
            None,
        )
    } by {
        lemma_stopped_ring_is_forgotten((*handler)@.vrings[ring], live@[ring]@, entry);
        assert(updates@[ring]@ == (*handler)@.vrings[ring].stop_updates(live@[ring]@));
    }
}

/// The parts of a ring are where the shared memory has the addresses of the front-end: each of the
/// three addresses is translated by the first region that holds it, and is placed as what it was given
/// for. Without shared memory, or for an address that no region holds, the request is refused.
pub proof fn lemma_set_vring_addr<T: VhostUserDevice, W>(
    index: u32,
    descriptor: u64,
    used: u64,
    available: u64,
    mem: &GuestMemoryMmap<()>,
)
    ensures
        forall|handler: &mut VhostUserHandler<T, W>, result: Result<(), VhostUserError>| #[trigger]
            call_ensures(
                VhostUserHandler::<T, W>::set_vring_addr,
                (handler, index, descriptor, used, available, mem),
                result,
            ) ==> {
                let before = (*handler)@;
                let after = (*final(handler))@;
                let table = crate::vhost_user::memory_map::translated(before.mappings, descriptor);
                let avail = crate::vhost_user::memory_map::translated(before.mappings, available);
                let used_at = crate::vhost_user::memory_map::translated(before.mappings, used);
                &&& before.mappings.len() == 0 ==> result == Err::<(), VhostUserError>(
                    VhostUserError::InvalidParam,
                )
                &&& before.mappings.len() > 0 && (table is None || avail is None || used_at is None)
                    ==> result == Err::<(), VhostUserError>(VhostUserError::MissingMemoryMapping)
                &&& result is Ok ==> {
                    let ring = after.vrings[index as int];
                    &&& index < before.vrings.len()
                    &&& ring.queue.desc_table == table->0 as u64
                    &&& ring.queue.avail_ring == avail->0 as u64
                    &&& ring.queue.used_ring == used_at->0 as u64
                    &&& ring.queue.desc_table % 16 == 0
                    &&& ring.queue.avail_ring % 2 == 0
                    &&& ring.queue.used_ring % 4 == 0
                    &&& ring.queue.next_used == ring.used_indices.last()
                    &&& ring.used_indices.len() == before.vrings[index as int].used_indices.len()
                        + 1
                    &&& ring.queue.next_avail == before.vrings[index as int].queue.next_avail
                    &&& ring.queue.ready == before.vrings[index as int].queue.ready
                    &&& ring.queue.size == before.vrings[index as int].queue.size
                    &&& ring.kick == before.vrings[index as int].kick
                    &&& forall|i: int|
                        0 <= i < before.vrings.len() && i != index ==> #[trigger] after.vrings[i]
                            == before.vrings[i]
                }
            },
{
}

/// A region that was added is removed again by the same request, and then addresses are translated as
/// they were before. A region that could not be mapped changes nothing.
pub proof fn lemma_region_requests<T: VhostUserDevice, W, E>(
    mapped: Result<MappedRegion, E>,
    region: MemoryRegion,
    mem: &GuestMemoryMmap<()>,
)
    ensures
        forall|
            handler: &mut VhostUserHandler<T, W>,
            result: Result<GuestMemoryMmap<()>, MemoryFault<E>>,
        | #[trigger]
            call_ensures(
                VhostUserHandler::<T, W>::add_mem_region::<E>,
                (handler, mapped, mem),
                result,
            ) ==> {
                let before = (*handler)@;
                let after = (*final(handler))@;
                &&& mapped is Err ==> result is Err
                &&& result is Err ==> after == before
                &&& result is Ok ==> {
                    let shared = mapped->Ok_0.region;
                    &&& after.mappings.drop_last() == before.mappings
                    &&& after.mappings.len() == before.mappings.len() + 1
                    &&& after.mappings.last().vmm_addr == shared.user_addr
                    &&& after.mappings.last().gpa_base == shared.guest_phys_addr
                    &&& after.mappings.last().size == shared.memory_size
                    &&& after.mappings.last().local_addr == mapped->Ok_0.local_addr
                    &&& after.vrings == before.vrings
                    &&& after.memory_updated == before.memory_updated
                }
            },
        forall|
            handler: &mut VhostUserHandler<T, W>,
            result: Result<GuestMemoryMmap<()>, vm_memory::Error>,
        | #[trigger]
            call_ensures(
                VhostUserHandler::<T, W>::remove_mem_region,
                (handler, &region, mem),
                result,
            ) ==> {
                let before = (*handler)@;
                let after = (*final(handler))@;
                &&& result is Ok <==> crate::virtio::guest_memory::memory_regions(*mem).contains(
                    GuestRange { start: region.guest_phys_addr, len: region.memory_size },
                )
                &&& result is Err ==> after == before
                &&& result is Ok ==> after.mappings
                    == crate::vhost_user::memory_map::mappings_without(
                    before.mappings,
                    region.guest_phys_addr,
                )
                &&& after.vrings == before.vrings
            },
{
    assert forall|
        handler: &mut VhostUserHandler<T, W>,
        result: Result<GuestMemoryMmap<()>, MemoryFault<E>>,
    | #[trigger]
        call_ensures(VhostUserHandler::<T, W>::add_mem_region::<E>, (handler, mapped, mem), result)
            && result is Ok implies (*final(handler))@.mappings.drop_last()
        == (*handler)@.mappings by {
        assert((*final(handler))@.mappings.drop_last() =~= (*handler)@.mappings);
    }
}

/// An address of the front-end is translated as the shared regions say, and told to be missing
/// otherwise. What the back-end says of itself is what its device has.
pub proof fn lemma_answers_of_the_back_end<T: VhostUserDevice, W>(
    handler: VhostUserHandler<T, W>,
    vmm_va: u64,
    gpa: Result<u64, VhostUserHandlerError>,
    features: u64,
    protocol_features: u64,
    num: u64,
    slots: u64,
    flags: BackendFlags,
)
    requires
        call_ensures(VhostUserHandler::<T, W>::vmm_va_to_gpa, (&handler, vmm_va), gpa),
        call_ensures(VhostUserHandler::<T, W>::get_features, (&handler,), features),
        call_ensures(
            VhostUserHandler::<T, W>::get_protocol_features,
            (&handler,),
            protocol_features,
        ),
        call_ensures(VhostUserHandler::<T, W>::get_queue_num, (&handler,), num),
        call_ensures(VhostUserHandler::<T, W>::get_max_mem_slots, (&handler,), slots),
        call_ensures(VhostUserHandler::<T, W>::set_backend_req_fd, (&handler,), flags),
    ensures
        gpa is Ok <==> crate::vhost_user::memory_map::translated(
            handler@.mappings,
            vmm_va,
        ) is Some,
        gpa matches Ok(gpa) ==> crate::vhost_user::memory_map::translated(handler@.mappings, vmm_va)
            == Some(gpa as int),
        features == handler.spec_device().spec_avail_features(),
        protocol_features == handler.spec_device().spec_protocol_features(),
        num == handler.spec_device().spec_queues().len(),
        slots == 509,
        flags.reply_ack <==> handler@.acked_protocol_features & 0x8 != 0,
        flags.shared_object <==> handler@.acked_protocol_features & 0x4_0000 != 0,
{
}

/// A device behind a back-end offers what it offers, and protocol features besides, and is told of
/// the features that were chosen but for those.
pub proof fn lemma_back_end_adds_protocol_features<I: VhostUserDeviceImplementer>(
    before: I,
    features: u64,
    after: I,
)
    ensures
        VhostUserDevice::spec_avail_features(&before)
            == before.spec_device().spec_avail_features() | 0x4000_0000,
        VhostUserDevice::spec_acked_features(&before)
            == before.spec_device().spec_acked_features() | 0x4000_0000,
        VhostUserDevice::accepts_acked_features(&before, features) <==> features & 0x4000_0000
            == 0x4000_0000,
        <I as VhostUserDevice>::features_acked(before, features, after)
            ==> I::Device::features_acked(
            before.spec_device(),
            features ^ 0x4000_0000,
            after.spec_device(),
        ),
        VhostUserDevice::spec_protocol_features(&before) == I::implemented_protocol_features(),
        VhostUserDevice::spec_queues(&before) == before.spec_device().spec_queues(),
{
}

/// What a front-end asks of a device behind a back-end reaches the device as it was asked.
pub proof fn lemma_back_end_delegates<I: VhostUserDeviceImplementer>(
    before: I,
    after: I,
    offset: usize,
    data: Seq<u8>,
    queues: Map<usize, <I as VhostUserDeviceImplementer>::Queue>,
    socket: <I as VhostUserDeviceImplementer>::GpuSocket,
    result: Result<(), DeviceError>,
)
    ensures
        VhostUserDevice::config_read(&before, offset, data) == before.spec_device().config_read(
            offset,
            data,
        ),
        <I as VhostUserDevice>::config_written(before, offset, data, after, result)
            ==> I::Device::config_written(
            before.spec_device(),
            offset,
            data,
            after.spec_device(),
            result,
        ),
        <I as VhostUserDevice>::activated(before, queues, after, result) ==> I::Device::activated(
            before.spec_device(),
            queues,
            after.spec_device(),
            result,
        ),
        <I as VhostUserDevice>::stopped(before, after) ==> I::Device::stopped(
            before.spec_device(),
            after.spec_device(),
        ),
        <I as VhostUserDevice>::gpu_socket_set(before, socket, after) ==> I::display_connected(
            before.spec_device(),
            socket,
            after.spec_device(),
        ),
{
}

} // verus!
