//! What the calls of a ring and of a back-end do to what they are given.

use crate::vhost_user::backend::VhostUserDevice;
use crate::vhost_user::handler::{VhostUserHandler, VhostUserHandlerError, VringOutcome};
use crate::vhost_user::laws::{follow_kick, requests_for};
use crate::vhost_user::memory_map::{MappedRegion, MemoryFault, MemoryRegion};
use crate::vhost_user::state::{RefusedOperation, VhostUserError, VringState};
use crate::vhost_user::vring::{EpollEntry, KickUpdate, VhostKickEvent, Vring, VringView};
use crate::virtio::device::DeviceError;
use crate::virtio::device_queue::{DeviceQueue, KickRead};
use crate::virtio::guest_memory::GuestRange;
use crate::virtio::queue_args::QueueArgs;
use crate::virtio::virtqueue::VirtQueueError;
use virtio_queue::Queue;
use vm_memory::GuestMemoryMmap;
use vm_memory::MmapRegion;
use vstd::prelude::*;

verus! {

/// Whether two states of a ring differ at most in whether it is started, whether it is enabled, and in
/// its descriptors.
pub open spec fn same_place<W>(before: VringView<W>, after: VringView<W>) -> bool {
    &&& after.queue.max_size == before.queue.max_size
    &&& after.queue.size == before.queue.size
    &&& after.queue.event_idx_enabled == before.queue.event_idx_enabled
    &&& after.queue.next_avail == before.queue.next_avail
    &&& after.queue.next_used == before.queue.next_used
    &&& after.queue.desc_table == before.queue.desc_table
    &&& after.queue.avail_ring == before.queue.avail_ring
    &&& after.queue.used_ring == before.queue.used_ring
    &&& after.used_indices == before.used_indices
}

/// A ring that is started makes every instance that still exists watch its kick, with the token of the
/// instance, and one that is stopped makes them forget it. A ring whose descriptor changes makes them
/// follow, if it is started, and asks nothing of them otherwise.
pub proof fn lemma_instances_are_asked<W>(
    live: &[Option<i32>],
    fd: Option<i32>,
    updates: Vec<KickUpdate>,
    ring: Vring<W>,
    entry: int,
)
    requires
        live@.len() <= usize::MAX,
        0 <= entry < live@.len(),
    ensures
        forall|ring: &mut Vring<W>|
            (#[trigger] call_ensures(Vring::<W>::start, (ring, live), updates)) && (
            *ring)@.epolls.len() == live@.len() ==> {
                let before = (*ring)@;
                let after = (*final(ring))@;
                &&& after.queue.ready
                &&& after.enabled == before.enabled
                &&& after.kick == before.kick
                &&& after.call == before.call
                &&& after.err == before.err
                &&& after.epolls == before.epolls
                &&& same_place(before, after)
                &&& live@[entry] is Some ==> follow_kick(
                    requests_for(updates@, entry),
                    before.epolls[entry].token,
                    None,
                    before.kick,
                )
                &&& live@[entry] is None ==> requests_for(updates@, entry).len() == 0
            },
        forall|ring: &mut Vring<W>|
            (#[trigger] call_ensures(Vring::<W>::set_kick, (ring, fd, live), updates)) && (
            *ring)@.epolls.len() == live@.len() ==> {
                let before = (*ring)@;
                let after = (*final(ring))@;
                &&& after.kick == fd
                &&& after.queue == before.queue
                &&& after.enabled == before.enabled
                &&& after.call == before.call
                &&& after.err == before.err
                &&& after.epolls == before.epolls
                &&& !before.queue.ready ==> updates@.len() == 0
                &&& before.queue.ready && live@[entry] is Some ==> follow_kick(
                    requests_for(updates@, entry),
                    before.epolls[entry].token,
                    before.kick,
                    fd,
                )
                &&& live@[entry] is None ==> requests_for(updates@, entry).len() == 0
            },
        call_ensures(Vring::<W>::stop_updates, (&ring, live), updates) && ring@.epolls.len()
            == live@.len() ==> {
            &&& live@[entry] is Some ==> follow_kick(
                requests_for(updates@, entry),
                ring@.epolls[entry].token,
                ring@.kick,
                None,
            )
            &&& live@[entry] is None ==> requests_for(updates@, entry).len() == 0
        },
{
    assert forall|ring: &mut Vring<W>|
        (#[trigger] call_ensures(Vring::<W>::start, (ring, live), updates)) && (
        *ring)@.epolls.len() == live@.len() implies {
        let before = (*ring)@;
        &&& live@[entry] is Some ==> follow_kick(
            requests_for(updates@, entry),
            before.epolls[entry].token,
            None,
            before.kick,
        )
        &&& live@[entry] is None ==> requests_for(updates@, entry).len() == 0
    } by {
        crate::vhost_user::laws::lemma_instances_follow_the_kick(
            (*ring)@.epolls,
            live@,
            None,
            (*ring)@.kick,
            entry,
        );
    }
    assert forall|ring: &mut Vring<W>|
        (#[trigger] call_ensures(Vring::<W>::set_kick, (ring, fd, live), updates)) && (
        *ring)@.epolls.len() == live@.len() implies {
        let before = (*ring)@;
        &&& before.queue.ready && live@[entry] is Some ==> follow_kick(
            requests_for(updates@, entry),
            before.epolls[entry].token,
            before.kick,
            fd,
        )
        &&& live@[entry] is None ==> requests_for(updates@, entry).len() == 0
    } by {
        crate::vhost_user::laws::lemma_instances_follow_the_kick(
            (*ring)@.epolls,
            live@,
            (*ring)@.kick,
            fd,
            entry,
        );
    }
    if call_ensures(Vring::<W>::stop_updates, (&ring, live), updates) && ring@.epolls.len()
        == live@.len() {
        crate::vhost_user::laws::lemma_stopped_ring_is_forgotten(ring@, live@, entry);
    }
}

/// What is set of a ring is set, and nothing else. A ring is stopped only if the instances that watch
/// it could be told.
pub proof fn lemma_ring_is_set<W, E>(
    enabled: bool,
    fd: Option<i32>,
    updated: Result<(), E>,
    stopped: Result<(), E>,
)
    ensures
        forall|ring: &mut Vring<W>|
            (#[trigger] call_ensures(Vring::<W>::set_enabled, (ring, enabled), ())) ==> {
                (*final(ring))@ == (VringView { enabled, ..(*ring)@ })
            },
        forall|ring: &mut Vring<W>|
            (#[trigger] call_ensures(Vring::<W>::set_call, (ring, fd), ())) ==> (*final(ring))@ == (
            VringView { call: fd, ..(*ring)@ }),
        forall|ring: &mut Vring<W>|
            (#[trigger] call_ensures(Vring::<W>::set_err, (ring, fd), ())) ==> (*final(ring))@ == (
            VringView { err: fd, ..(*ring)@ }),
        forall|ring: &mut Vring<W>|
            (#[trigger] call_ensures(Vring::<W>::stop::<E>, (ring, updated), stopped)) ==> {
                let before = (*ring)@;
                let after = (*final(ring))@;
                &&& stopped == updated
                &&& updated is Err ==> after == before
                &&& updated is Ok ==> !after.queue.ready
                &&& after.enabled == before.enabled
                &&& after.kick == before.kick
                &&& after.call == before.call
                &&& after.err == before.err
                &&& after.epolls == before.epolls
                &&& same_place(before, after)
            },
{
}

/// What a ring tells of itself is what was set. It can be processed exactly if it is both enabled and
/// started, its driver is notified through the call descriptor, and a kick that could not be read is an
/// error, whereas one that did not come is none.
pub proof fn lemma_ring_tells<W, E>(
    ring: Vring<W>,
    enabled: bool,
    started: bool,
    has_kick: bool,
    kick: Option<i32>,
    err: Option<i32>,
    call: Option<i32>,
    read: KickRead<E>,
    result: Result<bool, E>,
)
    requires
        call_ensures(Vring::<W>::is_enabled, (&ring,), enabled),
        call_ensures(Vring::<W>::is_started, (&ring,), started),
        call_ensures(Vring::<W>::has_kick_event, (&ring,), has_kick),
        call_ensures(Vring::<W>::kick, (&ring,), kick),
        call_ensures(Vring::<W>::err, (&ring,), err),
        call_ensures(<Vring<W> as DeviceQueue>::signal_used_queue, (&ring,), call),
        call_ensures(<Vring<W> as DeviceQueue>::read_kick::<E>, (&ring, read), result),
    ensures
        enabled == ring@.enabled,
        started == ring@.queue.ready,
        kick == ring@.kick,
        has_kick <==> kick is Some,
        err == ring@.err,
        call == ring@.call,
        <Vring<W> as DeviceQueue>::processable(&ring) <==> enabled && started,
        read matches KickRead::Failed(e) ==> result == Err::<bool, E>(e),
        !(read is Failed) ==> result == Ok::<bool, E>(enabled),
{
}

/// The parts of a ring are placed where they are said to be, if each is aligned as it has to be: the
/// descriptors to 16 bytes, the available ring to 2 and the used ring to 4. The first that is not is
/// told.
pub proof fn lemma_ring_is_placed<W>(
    desc_table: u64,
    avail_ring: u64,
    used_ring: u64,
    result: Result<(), VirtQueueError>,
)
    ensures
        forall|ring: &mut Vring<W>|
            (#[trigger] call_ensures(
                Vring::<W>::set_queue_info,
                (ring, desc_table, avail_ring, used_ring),
                result,
            )) ==> {
                let before = (*ring)@;
                let after = (*final(ring))@;
                &&& result is Ok <==> desc_table % 16 == 0 && avail_ring % 2 == 0 && used_ring % 4
                    == 0
                &&& result == Err::<(), VirtQueueError>(VirtQueueError::InvalidDescTableAlign)
                    <==> desc_table % 16 != 0
                &&& result == Err::<(), VirtQueueError>(VirtQueueError::InvalidAvailRingAlign)
                    <==> desc_table % 16 == 0 && avail_ring % 2 != 0
                &&& result is Ok ==> {
                    &&& after.queue.desc_table == desc_table
                    &&& after.queue.avail_ring == avail_ring
                    &&& after.queue.used_ring == used_ring
                }
                &&& after.queue.ready == before.queue.ready
                &&& after.queue.size == before.queue.size
                &&& after.queue.next_avail == before.queue.next_avail
                &&& after.queue.next_used == before.queue.next_used
                &&& after.enabled == before.enabled
                &&& after.kick == before.kick
                &&& after.call == before.call
                &&& after.epolls == before.epolls
            },
{
}

/// An instance that watches a ring is remembered with its token, behind those that still exist, if the
/// kick could be registered with it. One that is removed is forgotten, and those that exist no more.
/// Nothing else of the ring changes.
pub proof fn lemma_instances_are_remembered<W, E>(
    outcome: Result<(), E>,
    result: Result<(), E>,
    epoll: W,
    token: u64,
    fd: i32,
    live: &[Option<i32>],
)
    ensures
        forall|ring: &mut Vring<W>|
            (#[trigger] call_ensures(Vring::<W>::add_epoll, (ring, epoll, token, live), ())) ==> {
                let before = (*ring)@;
                let after = (*final(ring))@;
                &&& after == (VringView { epolls: after.epolls, ..before })
                &&& after.epolls.len() > 0
                &&& after.epolls.last() == (EpollEntry { epoll, token })
                &&& after.epolls.drop_last() == crate::vhost_user::vring::retained_entries(
                    before.epolls,
                    live@,
                    None,
                )
            },
        forall|ring: &mut Vring<W>|
            (#[trigger] call_ensures(Vring::<W>::remove_epoll, (ring, fd, live), ())) ==> {
                let before = (*ring)@;
                let after = (*final(ring))@;
                &&& after == (VringView { epolls: after.epolls, ..before })
                &&& after.epolls == crate::vhost_user::vring::retained_entries(
                    before.epolls,
                    live@,
                    Some(fd),
                )
            },
        forall|ring: &mut Vring<W>|
            (#[trigger] call_ensures(
                Vring::<W>::registered::<E>,
                (ring, outcome, epoll, token, live),
                result,
            )) ==> {
                let before = (*ring)@;
                let after = (*final(ring))@;
                &&& result == outcome
                &&& outcome is Err ==> after == before
                &&& outcome is Ok ==> {
                    &&& after == (VringView { epolls: after.epolls, ..before })
                    &&& after.epolls.len() > 0
                    &&& after.epolls.last() == (EpollEntry { epoll, token })
                }
            },
{
    assert forall|ring: &mut Vring<W>|
        (#[trigger] call_ensures(Vring::<W>::add_epoll, (ring, epoll, token, live), ()))
        implies (*final(ring))@.epolls.drop_last() == crate::vhost_user::vring::retained_entries(
        (*ring)@.epolls,
        live@,
        None,
    ) by {
        assert((*final(ring))@.epolls.drop_last() =~= crate::vhost_user::vring::retained_entries(
            (*ring)@.epolls,
            live@,
            None,
        ));
    }
}

/// The index of the used ring that was read is remembered, and changes nothing else.
pub proof fn lemma_used_index_is_read<W>(
    mem: &GuestMemoryMmap<()>,
    result: Result<u16, virtio_queue::Error>,
)
    ensures
        forall|ring: &mut Vring<W>|
            (#[trigger] call_ensures(Vring::<W>::read_used_idx, (ring, mem), result)) ==> {
                let before = (*ring)@;
                let after = (*final(ring))@;
                &&& after == (VringView { used_indices: after.used_indices, ..before })
                &&& result matches Ok(index) ==> after.used_indices == before.used_indices.push(
                    index,
                )
                &&& result is Err ==> after == before
            },
{
}

/// The sizes that a queue can have are the sixteen powers of two from 1 to 32768.
pub proof fn lemma_possible_sizes(size: u16)
    ensures
        crate::virtio::virtqueue::is_queue_size(size) <==> {
            ||| size == 1 || size == 2 || size == 4 || size == 8
            ||| size == 16 || size == 32 || size == 64 || size == 128
            ||| size == 256 || size == 512 || size == 1024 || size == 2048
            ||| size == 4096 || size == 8192 || size == 16384 || size == 32768
        },
{
    if size > 0 {
        let less = (size - 1) as u16;
        assert(size & less == 0 <==> (size == 1 || size == 2 || size == 4 || size == 8 || size == 16
            || size == 32 || size == 64 || size == 128 || size == 256 || size == 512 || size == 1024
            || size == 2048 || size == 4096 || size == 8192 || size == 16384 || size == 32768))
            by (bit_vector)
            requires
                size > 0,
                less == size - 1,
        ;
    }
}

/// A ring can be made exactly with a possible size, and is then stopped and disabled, as large as it
/// can be, and without descriptors.
pub proof fn lemma_ring_is_made<W>(args: QueueArgs, result: Result<Vring<W>, VirtQueueError>)
    requires
        call_ensures(Vring::<W>::new, (&args,), result),
    ensures
        result is Ok <==> crate::virtio::virtqueue::is_queue_size(args.spec_max_size()),
        result matches Err(e) ==> e == VirtQueueError::InvalidMaxSize,
        result matches Ok(ring) ==> {
            &&& ring@.queue.max_size == args.spec_max_size()
            &&& ring@.queue.size == args.spec_max_size()
            &&& !ring@.queue.ready
            &&& !ring@.queue.event_idx_enabled
            &&& ring@.queue.next_avail == 0
            &&& ring@.queue.next_used == 0
            &&& !ring@.enabled
            &&& ring@.kick is None
            &&& ring@.call is None
            &&& ring@.err is None
            &&& ring@.epolls.len() == 0
        },
{
}

/// A new back-end has a ring for each queue of its device, of the size that the device asks for, and
/// nothing was negotiated or shared yet. It can be made exactly if every size is a possible one.
pub proof fn lemma_new_back_end<T: VhostUserDevice, W>(
    device: T,
    result: Result<VhostUserHandler<T, W>, VhostUserHandlerError>,
    i: int,
)
    requires
        call_ensures(VhostUserHandler::<T, W>::new, (device,), result),
        0 <= i < device.spec_queues().len(),
    ensures
        result matches Ok(handler) ==> {
            &&& handler.spec_device() == device
            &&& handler@.vrings.len() == device.spec_queues().len()
            &&& handler@.vrings[i].queue.max_size == device.spec_queues()[i].spec_max_size()
            &&& !handler@.vrings[i].queue.ready
            &&& !handler@.vrings[i].enabled
            &&& handler@.vrings[i].kick is None
            &&& crate::virtio::virtqueue::is_queue_size(device.spec_queues()[i].spec_max_size())
            &&& !handler@.device_activated
            &&& !handler@.memory_updated
            &&& !handler@.owned
            &&& !handler@.features_acked
            &&& handler@.acked_features == 0
            &&& handler@.acked_protocol_features == 0
            &&& handler@.mappings.len() == 0
            &&& !handler@.uffd
        },
        !crate::virtio::virtqueue::is_queue_size(device.spec_queues()[i].spec_max_size())
            ==> result is Err,
{
}

/// A table of regions is taken over as a whole or not at all: every region has to be mapped and to have
/// a place in the guest, and they have to be in order and apart. Then addresses are translated by
/// them, in their order, and by no others.
pub proof fn lemma_set_mem_table<T: VhostUserDevice, W, E>(
    mapped: Vec<Result<MappedRegion, E>>,
    result: Result<GuestMemoryMmap<()>, MemoryFault<E>>,
    i: int,
)
    requires
        0 <= i < mapped@.len(),
    ensures
        forall|handler: &mut VhostUserHandler<T, W>|
            (#[trigger] call_ensures(
                VhostUserHandler::<T, W>::set_mem_table::<E>,
                (handler, mapped),
                result,
            )) ==> {
                let before = (*handler)@;
                let after = (*final(handler))@;
                &&& result is Err ==> after == before
                &&& mapped@[i] is Err ==> result is Err
                &&& result matches Ok(mem) ==> {
                    let shared = mapped@[i]->Ok_0;
                    &&& mapped@[i] is Ok
                    &&& after.memory_updated
                    &&& after.mappings.len() == mapped@.len()
                    &&& after.mappings[i].vmm_addr == shared.region.user_addr
                    &&& after.mappings[i].gpa_base == shared.region.guest_phys_addr
                    &&& after.mappings[i].size == shared.region.memory_size
                    &&& after.mappings[i].local_addr == shared.local_addr
                    &&& crate::virtio::guest_memory::memory_regions(mem).len() == mapped@.len()
                    &&& crate::virtio::guest_memory::memory_regions(mem)[i] == (GuestRange {
                        start: shared.region.guest_phys_addr,
                        len: shared.region.memory_size,
                    })
                    &&& after.vrings == before.vrings
                    &&& after.device_activated == before.device_activated
                    &&& after.acked_features == before.acked_features
                    &&& after.owned == before.owned
                }
                &&& result is Ok <==> {
                    &&& forall|j: int|
                        0 <= j < mapped@.len() ==> ((#[trigger] mapped@[j]) is Ok
                            && mapped@[j]->Ok_0.region.guest_phys_addr
                            + mapped@[j]->Ok_0.region.memory_size <= u64::MAX)
                    &&& forall|j: int, k: int|
                        0 <= j < k < mapped@.len() ==> (
                        #[trigger] mapped@[j])->Ok_0.region.guest_phys_addr
                            + mapped@[j]->Ok_0.region.memory_size <= (
                        #[trigger] mapped@[k])->Ok_0.region.guest_phys_addr
                }
            },
{
    let ranges = crate::vhost_user::memory_map::mapped_ranges(mapped@);
    assert forall|handler: &mut VhostUserHandler<T, W>|
        (#[trigger] call_ensures(
            VhostUserHandler::<T, W>::set_mem_table::<E>,
            (handler, mapped),
            result,
        )) implies {
        result is Ok <==> {
            &&& forall|j: int|
                0 <= j < mapped@.len() ==> ((#[trigger] mapped@[j]) is Ok
                    && mapped@[j]->Ok_0.region.guest_phys_addr
                    + mapped@[j]->Ok_0.region.memory_size <= u64::MAX)
            &&& forall|j: int, k: int|
                0 <= j < k < mapped@.len() ==> (
                #[trigger] mapped@[j])->Ok_0.region.guest_phys_addr
                    + mapped@[j]->Ok_0.region.memory_size <= (
                #[trigger] mapped@[k])->Ok_0.region.guest_phys_addr
        }
    } by {
        if result is Ok {
            assert forall|j: int| 0 <= j < mapped@.len() implies ((#[trigger] mapped@[j]) is Ok
                && mapped@[j]->Ok_0.region.guest_phys_addr + mapped@[j]->Ok_0.region.memory_size
                <= u64::MAX) by {
                assert(crate::vhost_user::memory_map::usable(mapped@[j]));
            }
            assert forall|j: int, k: int| 0 <= j < k < mapped@.len() implies (
            #[trigger] mapped@[j])->Ok_0.region.guest_phys_addr
                + mapped@[j]->Ok_0.region.memory_size <= (
            #[trigger] mapped@[k])->Ok_0.region.guest_phys_addr by {
                assert(ranges[j].start + ranges[j].len <= ranges[k].start);
            }
        } else if (forall|j: int|
            0 <= j < mapped@.len() ==> ((#[trigger] mapped@[j]) is Ok
                && mapped@[j]->Ok_0.region.guest_phys_addr + mapped@[j]->Ok_0.region.memory_size
                <= u64::MAX)) && (forall|j: int, k: int|
            0 <= j < k < mapped@.len() ==> (#[trigger] mapped@[j])->Ok_0.region.guest_phys_addr
                + mapped@[j]->Ok_0.region.memory_size <= (
            #[trigger] mapped@[k])->Ok_0.region.guest_phys_addr) {
            assert forall|j: int, k: int| 0 <= j < k < ranges.len() implies (
            #[trigger] ranges[j]).start + ranges[j].len <= (#[trigger] ranges[k]).start by {
                assert(mapped@[j]->Ok_0.region.guest_phys_addr
                    + mapped@[j]->Ok_0.region.memory_size
                    <= mapped@[k]->Ok_0.region.guest_phys_addr);
            }
        }
    }
    if 0 <= i < mapped@.len() {
        assert forall|handler: &mut VhostUserHandler<T, W>|
            (#[trigger] call_ensures(
                VhostUserHandler::<T, W>::set_mem_table::<E>,
                (handler, mapped),
                result,
            )) && result is Ok implies mapped@[i] is Ok by {
            assert(crate::vhost_user::memory_map::usable(mapped@[i]));
        }
    }
}

/// Ranges stay apart with one more exactly if it reaches into none of them.
pub proof fn lemma_one_more_range(ranges: Seq<GuestRange>, range: GuestRange)
    requires
        crate::virtio::guest_memory::ranges_apart(ranges),
        range.len > 0,
        forall|i: int| 0 <= i < ranges.len() ==> (#[trigger] ranges[i]).len > 0,
    ensures
        crate::virtio::guest_memory::ranges_apart(
            crate::virtio::guest_memory::with_range(ranges, range),
        ) <==> forall|i: int|
            0 <= i < ranges.len() ==> (#[trigger] ranges[i]).start + ranges[i].len <= range.start
                || range.start + range.len <= ranges[i].start,
    decreases ranges.len(),
{
    let more = crate::virtio::guest_memory::with_range(ranges, range);
    let clear = forall|i: int|
        0 <= i < ranges.len() ==> (#[trigger] ranges[i]).start + ranges[i].len <= range.start
            || range.start + range.len <= ranges[i].start;
    if ranges.len() > 0 {
        let last = ranges.len() - 1;
        assert(ranges.last() == ranges[last]);
        if ranges.last().start <= range.start {
            if crate::virtio::guest_memory::ranges_apart(more) {
                assert forall|i: int| 0 <= i < ranges.len() implies (#[trigger] ranges[i]).start
                    + ranges[i].len <= range.start by {
                    assert(more[i] == ranges[i]);
                    assert(more[last + 1] == range);
                }
            }
            if clear {
                assert forall|i: int, j: int| 0 <= i < j < more.len() implies (
                #[trigger] more[i]).start + more[i].len <= (#[trigger] more[j]).start by {
                    assert(more[i] == ranges[i]);
                    if j <= last {
                        assert(more[j] == ranges[j]);
                    } else if i < last {
                        assert(ranges[i].start + ranges[i].len <= ranges[last].start);
                    }
                }
            }
        } else {
            let shorter = ranges.drop_last();
            let inner = crate::virtio::guest_memory::with_range(shorter, range);
            assert forall|i: int, j: int| 0 <= i < j < shorter.len() implies (
            #[trigger] shorter[i]).start + shorter[i].len <= (#[trigger] shorter[j]).start by {
                assert(shorter[i] == ranges[i] && shorter[j] == ranges[j]);
            }
            assert forall|i: int| 0 <= i < shorter.len() implies (#[trigger] shorter[i]).len
                > 0 by {
                assert(shorter[i] == ranges[i]);
            }
            lemma_one_more_range(shorter, range);
            crate::virtio::guest_memory::lemma_with_range_contains(shorter, range, range);
            assert(inner.contains(range));
            let at = choose|at: int| 0 <= at < inner.len() && inner[at] == range;
            if crate::virtio::guest_memory::ranges_apart(more) {
                assert(more[at] == range);
                assert(more[inner.len() as int] == ranges.last());
                assert forall|i: int, j: int| 0 <= i < j < inner.len() implies (
                #[trigger] inner[i]).start + inner[i].len <= (#[trigger] inner[j]).start by {
                    assert(more[i] == inner[i] && more[j] == inner[j]);
                }
                assert forall|i: int| 0 <= i < ranges.len() implies (#[trigger] ranges[i]).start
                    + ranges[i].len <= range.start || range.start + range.len
                    <= ranges[i].start by {
                    if i < last {
                        assert(shorter[i] == ranges[i]);
                    }
                }
            }
            if clear {
                assert forall|i: int| 0 <= i < shorter.len() implies (#[trigger] shorter[i]).start
                    + shorter[i].len <= range.start || range.start + range.len
                    <= shorter[i].start by {
                    assert(shorter[i] == ranges[i]);
                }
                assert forall|i: int, j: int| 0 <= i < j < more.len() implies (
                #[trigger] more[i]).start + more[i].len <= (#[trigger] more[j]).start by {
                    assert(more[i] == inner[i]);
                    if j < inner.len() {
                        assert(more[j] == inner[j]);
                    } else {
                        assert(more[j] == ranges.last());
                        assert(inner.contains(inner[i]));
                        crate::virtio::guest_memory::lemma_with_range_contains(
                            shorter,
                            range,
                            inner[i],
                        );
                        if inner[i] != range {
                            let k = choose|k: int| 0 <= k < shorter.len() && shorter[k] == inner[i];
                            assert(ranges[k] == inner[i]);
                        }
                    }
                }
            }
        }
    } else {
        assert(more =~= seq![range]);
    }
}

/// A region is added exactly if it could be mapped, has a place in the guest and reaches into none of
/// the regions of the guest, and is removed exactly if the guest has it.
pub proof fn lemma_which_regions_are_added<T: VhostUserDevice, W, E>(
    mapped: Result<MappedRegion, E>,
    mem: &GuestMemoryMmap<()>,
    result: Result<GuestMemoryMmap<()>, MemoryFault<E>>,
)
    requires
        crate::virtio::guest_memory::ranges_apart(
            crate::virtio::guest_memory::memory_regions(*mem),
        ),
        forall|i: int|
            0 <= i < crate::virtio::guest_memory::memory_regions(*mem).len() ==> (
            #[trigger] crate::virtio::guest_memory::memory_regions(*mem)[i]).len > 0,
        mapped matches Ok(mapped) ==> mapped.fits(),
    ensures
        forall|handler: &mut VhostUserHandler<T, W>|
            (#[trigger] call_ensures(
                VhostUserHandler::<T, W>::add_mem_region::<E>,
                (handler, mapped, mem),
                result,
            )) ==> (result is Ok <==> (mapped matches Ok(shared) && {
                let regions = crate::virtio::guest_memory::memory_regions(*mem);
                let start = shared.region.guest_phys_addr;
                let end = start + shared.region.memory_size;
                &&& end <= u64::MAX
                &&& forall|i: int|
                    0 <= i < regions.len() ==> (#[trigger] regions[i]).start + regions[i].len
                        <= start || end <= regions[i].start
            })),
{
    if let Ok(shared) = mapped {
        lemma_one_more_range(
            crate::virtio::guest_memory::memory_regions(*mem),
            shared.region.range(),
        );
    }
}

/// What a request of the front-end leaves as it is, and how the device answers it.
pub proof fn lemma_requests_to_the_device<T: VhostUserDevice, W, E>(
    offset: u32,
    buf: &[u8],
    socket: T::GpuSocket,
    result: Result<(), VhostUserError>,
    started: Result<(), E>,
    answer: Result<(), VhostUserError>,
    handler: VhostUserHandler<T, W>,
    feature: u64,
    checked: Result<(), VhostUserError>,
    get_inflight: Result<(), VhostUserError>,
    set_inflight: Result<(), VhostUserError>,
)
    ensures
        forall|handler: &mut VhostUserHandler<T, W>|
            (#[trigger] call_ensures(
                VhostUserHandler::<T, W>::set_config,
                (handler, offset, buf),
                result,
            )) ==> {
                &&& (*final(handler))@ == (*handler)@
                &&& exists|written: Result<(), DeviceError>|
                    #[trigger] T::config_written(
                        (*handler).spec_device(),
                        offset as usize,
                        buf@,
                        (*final(handler)).spec_device(),
                        written,
                    ) && (result is Ok <==> written is Ok)
                &&& result matches Err(e) ==> e == VhostUserError::BackendInternalError
            },
        forall|handler: &mut VhostUserHandler<T, W>|
            (#[trigger] call_ensures(
                VhostUserHandler::<T, W>::set_gpu_socket,
                (handler, socket),
                result,
            )) ==> {
                &&& result is Ok
                &&& (*final(handler))@ == (*handler)@
                &&& T::gpu_socket_set(
                    (*handler).spec_device(),
                    socket,
                    (*final(handler)).spec_device(),
                )
            },
        forall|handler: &mut VhostUserHandler<T, W>|
            (#[trigger] call_ensures(VhostUserHandler::<T, W>::send_exit_event, (handler,), ()))
                ==> {
                &&& (*final(handler))@ == (*handler)@
                &&& T::stopped((*handler).spec_device(), (*final(handler)).spec_device())
            },
        call_ensures(VhostUserHandler::<T, W>::workers_started::<E>, (started,), answer) ==> (
        answer is Ok <==> started is Ok) && (answer matches Err(e) ==> e
            == VhostUserError::BackendInternalError),
        call_ensures(VhostUserHandler::<T, W>::check_feature, (&handler, feature), checked) ==> (
        checked is Ok <==> handler@.acked_features & feature != 0) && (checked matches Err(e) ==> e
            == VhostUserError::InactiveFeature(feature)),
        call_ensures(VhostUserHandler::<T, W>::get_inflight_fd, (&handler,), get_inflight) ==> (
        get_inflight == Err::<(), VhostUserError>(
            VhostUserError::InvalidOperation(RefusedOperation::NotSupported),
        )),
        call_ensures(VhostUserHandler::<T, W>::set_inflight_fd, (&handler,), set_inflight) ==> (
        set_inflight == Err::<(), VhostUserError>(
            VhostUserError::InvalidOperation(RefusedOperation::NotSupported),
        )),
{
    assert forall|handler: &mut VhostUserHandler<T, W>|
        (#[trigger] call_ensures(
            VhostUserHandler::<T, W>::set_config,
            (handler, offset, buf),
            result,
        )) implies {
        &&& exists|written: Result<(), DeviceError>|
            #[trigger] T::config_written(
                (*handler).spec_device(),
                offset as usize,
                buf@,
                (*final(handler)).spec_device(),
                written,
            ) && (result is Ok <==> written is Ok)
        &&& result matches Err(e) ==> e == VhostUserError::BackendInternalError
    } by {
        let written = choose|written: Result<(), DeviceError>|
            #[trigger] T::config_written(
                (*handler).spec_device(),
                offset as usize,
                buf@,
                (*final(handler)).spec_device(),
                written,
            ) && result == crate::vhost_user::state::device_result(written);
        assert(T::config_written(
            (*handler).spec_device(),
            offset as usize,
            buf@,
            (*final(handler)).spec_device(),
            written,
        ));
    }
}

/// A read of the configuration space gives as many bytes as were asked for, which are those that the
/// device fills in, or fails if the device refuses it.
pub proof fn lemma_config_is_read<T: VhostUserDevice, W>(
    handler: VhostUserHandler<T, W>,
    offset: u32,
    size: u32,
    zeros: Seq<u8>,
    result: Result<Vec<u8>, VhostUserError>,
)
    requires
        call_ensures(VhostUserHandler::<T, W>::get_config, (&handler, offset, size), result),
        zeros.len() == size,
        forall|i: int| 0 <= i < zeros.len() ==> #[trigger] zeros[i] == 0,
    ensures
        ({
            let (data, read) = handler.spec_device().config_read(offset as usize, zeros);
            &&& result is Ok <==> read is Ok
            &&& result matches Ok(bytes) ==> bytes@ == data
            &&& result matches Err(e) ==> e == VhostUserError::BackendInternalError
        }),
{
    assert(zeros =~= Seq::new(size as nat, |i: int| 0u8));
}

/// There is a user fault handler from when one could be made until it is given up, and only then the
/// shared regions are told, each with where it is and how large it is.
pub proof fn lemma_user_faults<T: VhostUserDevice, W, E>(
    created: Result<(), E>,
    advised: Result<(), E>,
    handler: VhostUserHandler<T, W>,
    listened: Result<Vec<(u64, u64)>, VhostUserError>,
    ended: Result<(), VhostUserError>,
    i: int,
)
    requires
        call_ensures(VhostUserHandler::<T, W>::postcopy_listen, (&handler,), listened),
    ensures
        forall|handler: &mut VhostUserHandler<T, W>|
            (#[trigger] call_ensures(
                VhostUserHandler::<T, W>::postcopy_advice::<E>,
                (handler, created),
                advised,
            )) ==> {
                &&& advised == created
                &&& (*final(handler))@.uffd == ((*handler)@.uffd || created is Ok)
                &&& (*final(handler))@.mappings == (*handler)@.mappings
                &&& (*final(handler))@.vrings == (*handler)@.vrings
                &&& (*final(handler))@.acked_features == (*handler)@.acked_features
            },
        forall|handler: &mut VhostUserHandler<T, W>|
            (#[trigger] call_ensures(
                VhostUserHandler::<T, W>::postcopy_end,
                (handler,),
                ended,
            )) ==> {
                &&& ended is Ok
                &&& !(*final(handler))@.uffd
                &&& (*final(handler))@.mappings == (*handler)@.mappings
                &&& (*final(handler))@.vrings == (*handler)@.vrings
                &&& (*final(handler))@.acked_features == (*handler)@.acked_features
            },
        listened is Ok <==> handler@.uffd,
        listened matches Err(e) ==> e == VhostUserError::NoUserFaultHandler,
        listened matches Ok(ranges) ==> {
            &&& ranges@.len() == handler@.mappings.len()
            &&& 0 <= i < ranges@.len() ==> {
                let (at, len) = ranges@[i];
                at == handler@.mappings[i].local_addr && len == handler@.mappings[i].size
            }
        },
{
}

/// Bitmaps are put in place exactly if all of them could be made, in their order, and otherwise the
/// first error is told.
pub proof fn lemma_all_bitmaps_or_none<T: VhostUserDevice, W, B, E>(
    created: Vec<Result<B, E>>,
    result: Result<Vec<B>, E>,
    i: int,
)
    requires
        call_ensures(VhostUserHandler::<T, W>::set_log_base::<B, E>, (created,), result),
    ensures
        result is Ok <==> forall|j: int| 0 <= j < created@.len() ==> (#[trigger] created@[j]) is Ok,
        result matches Ok(bitmaps) ==> bitmaps@.len() == created@.len() && (0 <= i < bitmaps@.len()
            ==> created@[i] == Ok::<B, E>(bitmaps@[i])),
        result matches Err(e) ==> exists|j: int|
            0 <= j < created@.len() && (#[trigger] created@[j]) == Err::<B, E>(e) && forall|k: int|
                0 <= k < j ==> (#[trigger] created@[k]) is Ok,
{
    if let Err(e) = result {
        let j = choose|j: int| #[trigger] crate::vhost_user::handler::first_error(created@, j, e);
        assert(created@[j] == Err::<B, E>(e));
    }
}

/// A region goes with a mapping only if that is as large as the region, which has to be in the first
/// 64 bits of the front-end and not empty.
pub proof fn lemma_regions_and_mappings(
    region: MemoryRegion,
    mapping: MmapRegion<()>,
    local_addr: u64,
    mapped: Option<MappedRegion>,
)
    requires
        call_ensures(MappedRegion::new, (region, mapping, local_addr), mapped),
    ensures
        mapped is Some <==> {
            &&& crate::virtio::guest_memory::mapping_size(mapping) == region.memory_size
            &&& region.memory_size > 0
            &&& region.user_addr + region.memory_size <= u64::MAX
        },
        mapped matches Some(mapped) ==> mapped.region == region && mapped.mapping == mapping
            && mapped.local_addr == local_addr,
{
}

/// The index of the used ring is taken over if it could be read, and changes nothing but where buffers
/// are given back.
pub proof fn lemma_used_index_is_taken_over<T: VhostUserDevice, W, E>(
    index: u32,
    used_idx: Result<u16, E>,
    result: Result<(), VhostUserError>,
)
    ensures
        forall|handler: &mut VhostUserHandler<T, W>|
            (#[trigger] call_ensures(
                VhostUserHandler::<T, W>::set_vring_used_idx::<E>,
                (handler, index, used_idx),
                result,
            )) && index < (*handler)@.vrings.len() ==> {
                let before = (*handler)@;
                let after = (*final(handler))@;
                &&& result is Ok <==> used_idx is Ok
                &&& result is Err ==> after == before && result->Err_0
                    == VhostUserError::BackendInternalError
                &&& used_idx matches Ok(next_used) ==> {
                    let ring = after.vrings[index as int];
                    let was = before.vrings[index as int];
                    &&& ring.queue.next_used == next_used
                    &&& ring.queue.next_avail == was.queue.next_avail
                    &&& ring.queue.ready == was.queue.ready
                    &&& ring.queue.used_ring == was.queue.used_ring
                    &&& ring.kick == was.kick
                    &&& ring.enabled == was.enabled
                    &&& forall|i: int|
                        0 <= i < before.vrings.len() && i != index ==> #[trigger] after.vrings[i]
                            == before.vrings[i]
                }
            },
{
}

/// Where a ring is placed can be refused, and then it is told why: the memory of the guest, an address
/// that is not shared, a ring that does not exist, parts that are not aligned, or a used ring that
/// is not in the memory.
pub proof fn lemma_refused_addresses<T: VhostUserDevice, W>(
    index: u32,
    descriptor: u64,
    used: u64,
    available: u64,
    mem: &GuestMemoryMmap<()>,
    result: Result<(), VhostUserError>,
)
    ensures
        forall|handler: &mut VhostUserHandler<T, W>|
            (#[trigger] call_ensures(
                VhostUserHandler::<T, W>::set_vring_addr,
                (handler, index, descriptor, used, available, mem),
                result,
            )) ==> {
                let before = (*handler)@;
                let after = (*final(handler))@;
                let table = crate::vhost_user::memory_map::translated(before.mappings, descriptor);
                let avail = crate::vhost_user::memory_map::translated(before.mappings, available);
                let used_at = crate::vhost_user::memory_map::translated(before.mappings, used);
                let shared = table is Some && avail is Some && used_at is Some;
                let aligned = (table->0 as u64) % 16 == 0 && (avail->0 as u64) % 2 == 0 && (
                used_at->0 as u64) % 4 == 0;
                &&& result == Err::<(), VhostUserError>(VhostUserError::InvalidParam)
                    <==> before.mappings.len() == 0 || shared && (index >= before.vrings.len()
                    || !aligned)
                &&& result == Err::<(), VhostUserError>(VhostUserError::MissingMemoryMapping)
                    <==> before.mappings.len() > 0 && !shared
                &&& before.mappings.len() == 0 || !shared || index >= before.vrings.len() ==> after
                    == before
                &&& before.mappings.len() > 0 && shared && index < before.vrings.len() && aligned
                    ==> (result is Ok || result == Err::<(), VhostUserError>(
                    VhostUserError::BackendInternalError,
                ))
                &&& result == Err::<(), VhostUserError>(VhostUserError::BackendInternalError) ==> {
                    let ring = after.vrings[index as int];
                    &&& ring.queue.next_used == before.vrings[index as int].queue.next_used
                    &&& ring.queue.used_ring == used_at->0 as u64
                    &&& ring.used_indices == before.vrings[index as int].used_indices
                }
            },
{
}

/// The instances that watch a ring can be looked at, and so can the device behind a back-end.
pub proof fn lemma_what_can_be_looked_at<T: VhostUserDevice, W>(
    ring: Vring<W>,
    epolls: &[EpollEntry<W>],
    handler: VhostUserHandler<T, W>,
    device: &T,
    index: usize,
    vring: Option<&Vring<W>>,
)
    requires
        call_ensures(Vring::<W>::epolls, (&ring,), epolls),
        call_ensures(VhostUserHandler::<T, W>::device, (&handler,), device),
        call_ensures(VhostUserHandler::<T, W>::vring, (&handler, index), vring),
    ensures
        epolls@ == ring@.epolls,
        *device == handler.spec_device(),
        vring is Some <==> index < handler@.vrings.len(),
        vring matches Some(vring) ==> vring@ == handler@.vrings[index as int],
{
}

/// Requests that are about the back-end, its rings or the shared memory leave the device alone.
pub proof fn lemma_requests_that_leave_the_device<T: VhostUserDevice, W, E>(
    index: u32,
    number: u8,
    fd: Option<i32>,
    value: u32,
    enable: bool,
    features: u64,
    result: Result<(), VhostUserError>,
    advised: Result<(), E>,
)
    ensures
        forall|handler: &mut VhostUserHandler<T, W>|
            (#[trigger] call_ensures(VhostUserHandler::<T, W>::set_owner, (handler,), result))
                ==> (*final(handler)).spec_device() == (*handler).spec_device(),
        forall|handler: &mut VhostUserHandler<T, W>|
            (#[trigger] call_ensures(VhostUserHandler::<T, W>::reset_owner, (handler,), result))
                ==> (*final(handler)).spec_device() == (*handler).spec_device(),
        forall|handler: &mut VhostUserHandler<T, W>|
            (#[trigger] call_ensures(
                VhostUserHandler::<T, W>::set_vring_num,
                (handler, index, value),
                result,
            )) ==> (*final(handler)).spec_device() == (*handler).spec_device(),
        forall|handler: &mut VhostUserHandler<T, W>|
            (#[trigger] call_ensures(
                VhostUserHandler::<T, W>::set_vring_base,
                (handler, index, value),
                result,
            )) ==> (*final(handler)).spec_device() == (*handler).spec_device(),
        forall|handler: &mut VhostUserHandler<T, W>|
            (#[trigger] call_ensures(
                VhostUserHandler::<T, W>::set_vring_err,
                (handler, number, fd),
                result,
            )) ==> (*final(handler)).spec_device() == (*handler).spec_device(),
        forall|handler: &mut VhostUserHandler<T, W>|
            (#[trigger] call_ensures(
                VhostUserHandler::<T, W>::set_vring_enable,
                (handler, index, enable),
                result,
            )) ==> (*final(handler)).spec_device() == (*handler).spec_device(),
        forall|handler: &mut VhostUserHandler<T, W>|
            (#[trigger] call_ensures(
                VhostUserHandler::<T, W>::set_protocol_features,
                (handler, features),
                result,
            )) ==> (*final(handler)).spec_device() == (*handler).spec_device(),
        forall|handler: &mut VhostUserHandler<T, W>|
            (#[trigger] call_ensures(
                VhostUserHandler::<T, W>::postcopy_end,
                (handler,),
                result,
            )) ==> (*final(handler)).spec_device() == (*handler).spec_device(),
        forall|handler: &mut VhostUserHandler<T, W>|
            (#[trigger] call_ensures(
                VhostUserHandler::<T, W>::postcopy_advice::<E>,
                (handler, advised),
                advised,
            )) ==> (*final(handler)).spec_device() == (*handler).spec_device(),
{
}

/// The first ring that is started by a kick descriptor once memory was shared activates the device, with
/// the handles of all rings, and the front-end is told whether that went well. Nothing else does, and
/// no other ring changes. A ring that does not exist is refused.
pub proof fn lemma_kick_activates_the_device<T: VhostUserDevice, W>(
    index: u8,
    fd: Option<i32>,
    live: &[Option<i32>],
    handles: Vec<T::Queue>,
    outcome: VringOutcome<()>,
)
    ensures
        forall|handler: &mut VhostUserHandler<T, W>|
            (#[trigger] call_ensures(
                VhostUserHandler::<T, W>::set_vring_kick,
                (handler, index, fd, live, handles),
                outcome,
            )) ==> {
                let before = (*handler)@;
                let after = (*final(handler))@;
                let ring = before.vrings[index as int];
                let due = !ring.queue.ready && fd is Some && before.memory_updated
                    && !before.device_activated;
                &&& index >= before.vrings.len() ==> {
                    &&& outcome.result == Err::<(), VhostUserError>(VhostUserError::InvalidParam)
                    &&& outcome.updates@.len() == 0
                    &&& *final(handler) == *handler
                }
                &&& index < before.vrings.len() ==> {
                    &&& after.device_activated == (before.device_activated || due)
                    &&& after.memory_updated == before.memory_updated
                    &&& after.acked_features == before.acked_features
                    &&& after.mappings == before.mappings
                    &&& after.vrings.len() == before.vrings.len()
                    &&& forall|i: int|
                        0 <= i < before.vrings.len() && i != index ==> #[trigger] after.vrings[i]
                            == before.vrings[i]
                    &&& !due ==> outcome.result is Ok && (*final(handler)).spec_device() == (
                    *handler).spec_device()
                    &&& due ==> exists|activation: Result<(), DeviceError>|
                        #[trigger] T::activated(
                            (*handler).spec_device(),
                            crate::vhost_user::state::numbered(handles@),
                            (*final(handler)).spec_device(),
                            activation,
                        ) && (outcome.result is Ok <==> activation is Ok)
                }
            },
{
    assert forall|handler: &mut VhostUserHandler<T, W>|
        (#[trigger] call_ensures(
            VhostUserHandler::<T, W>::set_vring_kick,
            (handler, index, fd, live, handles),
            outcome,
        )) && index < (*handler)@.vrings.len() && !(*handler)@.vrings[index as int].queue.ready
            && fd is Some && (*handler)@.memory_updated
            && !(*handler)@.device_activated implies exists|activation: Result<(), DeviceError>|
        #[trigger] T::activated(
            (*handler).spec_device(),
            crate::vhost_user::state::numbered(handles@),
            (*final(handler)).spec_device(),
            activation,
        ) && (outcome.result is Ok <==> activation is Ok) by {
        let activation = choose|activation: Result<(), DeviceError>|
            #[trigger] T::activated(
                (*handler).spec_device(),
                crate::vhost_user::state::numbered(handles@),
                (*final(handler)).spec_device(),
                activation,
            ) && outcome.result == crate::vhost_user::state::device_result(activation);
        assert(T::activated(
            (*handler).spec_device(),
            crate::vhost_user::state::numbered(handles@),
            (*final(handler)).spec_device(),
            activation,
        ));
    }
}

/// The first ring that is started when it gets a call descriptor once memory was shared activates the
/// device, with the handles of all rings, and the front-end is told whether that went well. Nothing
/// else does, and no other ring changes. A ring that does not exist is refused.
pub proof fn lemma_call_activates_the_device<T: VhostUserDevice, W>(
    index: u8,
    fd: Option<i32>,
    live: &[Option<i32>],
    handles: Vec<T::Queue>,
    outcome: VringOutcome<()>,
)
    ensures
        forall|handler: &mut VhostUserHandler<T, W>|
            (#[trigger] call_ensures(
                VhostUserHandler::<T, W>::set_vring_call,
                (handler, index, fd, live, handles),
                outcome,
            )) ==> {
                let before = (*handler)@;
                let after = (*final(handler))@;
                let ring = before.vrings[index as int];
                let due = !ring.queue.ready && ring.kick is Some && before.memory_updated
                    && !before.device_activated;
                &&& index >= before.vrings.len() ==> {
                    &&& outcome.result == Err::<(), VhostUserError>(VhostUserError::InvalidParam)
                    &&& outcome.updates@.len() == 0
                    &&& *final(handler) == *handler
                }
                &&& index < before.vrings.len() ==> {
                    &&& after.device_activated == (before.device_activated || due)
                    &&& after.memory_updated == before.memory_updated
                    &&& after.acked_features == before.acked_features
                    &&& after.mappings == before.mappings
                    &&& after.vrings.len() == before.vrings.len()
                    &&& forall|i: int|
                        0 <= i < before.vrings.len() && i != index ==> #[trigger] after.vrings[i]
                            == before.vrings[i]
                    &&& !due ==> outcome.result is Ok && (*final(handler)).spec_device() == (
                    *handler).spec_device()
                    &&& due ==> exists|activation: Result<(), DeviceError>|
                        #[trigger] T::activated(
                            (*handler).spec_device(),
                            crate::vhost_user::state::numbered(handles@),
                            (*final(handler)).spec_device(),
                            activation,
                        ) && (outcome.result is Ok <==> activation is Ok)
                }
            },
{
    assert forall|handler: &mut VhostUserHandler<T, W>|
        (#[trigger] call_ensures(
            VhostUserHandler::<T, W>::set_vring_call,
            (handler, index, fd, live, handles),
            outcome,
        )) && index < (*handler)@.vrings.len() && !(*handler)@.vrings[index as int].queue.ready
            && (*handler)@.vrings[index as int].kick is Some && (*handler)@.memory_updated
            && !(*handler)@.device_activated implies exists|activation: Result<(), DeviceError>|
        #[trigger] T::activated(
            (*handler).spec_device(),
            crate::vhost_user::state::numbered(handles@),
            (*final(handler)).spec_device(),
            activation,
        ) && (outcome.result is Ok <==> activation is Ok) by {
        let activation = choose|activation: Result<(), DeviceError>|
            #[trigger] T::activated(
                (*handler).spec_device(),
                crate::vhost_user::state::numbered(handles@),
                (*final(handler)).spec_device(),
                activation,
            ) && outcome.result == crate::vhost_user::state::device_result(activation);
        assert(T::activated(
            (*handler).spec_device(),
            crate::vhost_user::state::numbered(handles@),
            (*final(handler)).spec_device(),
            activation,
        ));
    }
}

/// A position can be set for every ring that exists, and moves only where buffers of that ring are taken
/// from.
pub proof fn lemma_base_is_set<T: VhostUserDevice, W>(
    index: u32,
    base: u32,
    result: Result<(), VhostUserError>,
)
    ensures
        forall|handler: &mut VhostUserHandler<T, W>|
            (#[trigger] call_ensures(
                VhostUserHandler::<T, W>::set_vring_base,
                (handler, index, base),
                result,
            )) ==> {
                let before = (*handler)@;
                let after = (*final(handler))@;
                let ring = after.vrings[index as int];
                &&& result is Ok <==> index < before.vrings.len()
                &&& result is Err ==> after == before && result->Err_0
                    == VhostUserError::InvalidParam
                &&& result is Ok ==> {
                    &&& base <= u16::MAX ==> ring.queue.next_avail == base
                    &&& ring.queue.next_used == before.vrings[index as int].queue.next_used
                    &&& ring.queue.ready == before.vrings[index as int].queue.ready
                    &&& ring.kick == before.vrings[index as int].kick
                    &&& forall|i: int|
                        0 <= i < before.vrings.len() && i != index ==> #[trigger] after.vrings[i]
                            == before.vrings[i]
                }
            },
{
}

/// A ring that is stopped tells from where the device would have taken the next buffer, and other rings
/// go on. A ring that does not exist is refused.
pub proof fn lemma_base_that_is_told<T: VhostUserDevice, W>(
    index: u32,
    live: &[Option<i32>],
    outcome: VringOutcome<VringState>,
)
    ensures
        forall|handler: &mut VhostUserHandler<T, W>|
            (#[trigger] call_ensures(
                VhostUserHandler::<T, W>::get_vring_base,
                (handler, index, live),
                outcome,
            )) ==> {
                let before = (*handler)@;
                let after = (*final(handler))@;
                let ring = before.vrings[index as int];
                &&& outcome.result is Ok <==> index < before.vrings.len()
                &&& outcome.result matches Ok(state) ==> {
                    &&& state.index == index
                    &&& state.num == ring.queue.next_avail
                    &&& !after.vrings[index as int].queue.ready
                    &&& after.vrings[index as int].kick is None
                    &&& after.vrings[index as int].call is None
                    &&& after.vrings[index as int].err == ring.err
                    &&& after.vrings[index as int].enabled == ring.enabled
                    &&& after.vrings[index as int].queue.next_avail == ring.queue.next_avail
                    &&& forall|i: int|
                        0 <= i < before.vrings.len() && i != index ==> #[trigger] after.vrings[i]
                            == before.vrings[i]
                }
                &&& outcome.result is Err ==> after == before && outcome.updates@.len() == 0
                    && outcome.result->Err_0 == VhostUserError::InvalidParam
                &&& after.device_activated == before.device_activated
                &&& (*final(handler)).spec_device() == (*handler).spec_device()
            },
{
}

/// The kick of a ring is a source of events of that ring, the index of its used ring can be read exactly
/// if it is in the memory, and changing its queue changes nothing else of it.
pub proof fn lemma_parts_of_a_ring<W>(
    ring: Vring<W>,
    event: VhostKickEvent<'_, W>,
    mem: &GuestMemoryMmap<()>,
    result: Result<u16, virtio_queue::Error>,
)
    requires
        call_ensures(Vring::<W>::kick_event, (&ring,), event),
    ensures
        event.spec_vring() == ring,
        forall|ring: &mut Vring<W>|
            (#[trigger] call_ensures(Vring::<W>::read_used_idx, (ring, mem), result)) ==> (
            result is Ok <==> crate::virtio::guest_queue::has_used_idx((*ring)@.queue, *mem)),
        forall|ring: &mut Vring<W>, queue: &mut Queue|
            (#[trigger] call_ensures(Vring::<W>::queue_mut, (ring,), queue)) ==> {
                let before = (*ring)@;
                let after = (*final(ring))@;
                &&& crate::virtio::virtqueue::queue_fields(*queue) == before.queue
                &&& after.queue == crate::virtio::virtqueue::queue_fields(*final(queue))
                &&& after.enabled == before.enabled
                &&& after.kick == before.kick
                &&& after.call == before.call
                &&& after.err == before.err
                &&& after.epolls == before.epolls
                &&& after.used_indices == before.used_indices
            },
        forall|ring: &mut Vring<W>, queue: Option<&mut Queue>|
            (#[trigger] call_ensures(
                <Vring<W> as DeviceQueue>::try_lock_queue,
                (ring,),
                queue,
            )) ==> (queue is Some <==> (*ring)@.enabled && (*ring)@.queue.ready),
{
}

/// The changes for the instances that watch a ring are those that make each of them follow its kick.
pub proof fn lemma_updates_of_a_ring<W>(
    ring: Vring<W>,
    live: &[Option<i32>],
    old_kick: Option<i32>,
    new_kick: Option<i32>,
    updates: Vec<KickUpdate>,
    entry: int,
)
    requires
        call_ensures(Vring::<W>::update_epolls, (&ring, live, old_kick, new_kick), updates),
        live@.len() == ring@.epolls.len() <= usize::MAX,
        0 <= entry < live@.len(),
    ensures
        live@[entry] is Some ==> follow_kick(
            requests_for(updates@, entry),
            ring@.epolls[entry].token,
            old_kick,
            new_kick,
        ),
        live@[entry] is None ==> requests_for(updates@, entry).len() == 0,
{
    crate::vhost_user::laws::lemma_instances_follow_the_kick(
        ring@.epolls,
        live@,
        old_kick,
        new_kick,
        entry,
    );
}

/// A device that is changed behind a back-end is the one that the back-end has, and nothing else of the
/// back-end changes. The same holds of a ring.
pub proof fn lemma_changes_behind_the_back_end<T: VhostUserDevice, W>(index: usize)
    ensures
        forall|handler: &mut VhostUserHandler<T, W>, device: &mut T|
            (#[trigger] call_ensures(VhostUserHandler::<T, W>::device_mut, (handler,), device))
                ==> {
                &&& *device == (*handler).spec_device()
                &&& (*final(handler)).spec_device() == *final(device)
                &&& (*final(handler))@ == (*handler)@
            },
        forall|handler: &mut VhostUserHandler<T, W>, ring: Option<&mut Vring<W>>|
            (#[trigger] call_ensures(
                VhostUserHandler::<T, W>::vring_mut,
                (handler, index),
                ring,
            )) ==> {
                &&& ring is Some <==> index < (*handler)@.vrings.len()
                &&& (*final(handler)).spec_device() == (*handler).spec_device()
                &&& ring matches Some(ring) ==> {
                    &&& (*ring)@ == (*handler)@.vrings[index as int]
                    &&& (*final(handler))@.vrings == (*handler)@.vrings.update(
                        index as int,
                        (*final(ring))@,
                    )
                    &&& (*final(handler))@.mappings == (*handler)@.mappings
                    &&& (*final(handler))@.acked_features == (*handler)@.acked_features
                    &&& (*final(handler))@.device_activated == (*handler)@.device_activated
                }
            },
{
}

/// A front-end is told that an activation went well exactly if the device could be activated and its
/// workers could be started.
pub proof fn lemma_activation_is_told<E>(
    returned: Result<(), DeviceError>,
    started: Result<(), E>,
)
    ensures
        crate::vhost_user::state::activation_result(returned, started) is Ok <==> returned is Ok
            && started is Ok,
{
}

} // verus!
