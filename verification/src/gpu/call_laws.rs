//! What the calls of a GPU do to what they are given.

use crate::gpu::config::{GpuCapset, GpuConfig, GpuConfigError, GpuFlags, GpuMode};
use crate::gpu::device::{GpuDevice, GpuError, GpuStart};
use crate::gpu::laws::{asks_for_fence, names_fence};
use crate::gpu::protocol::{CtrlHdr, GpuCall, GpuCommand, GpuResponse};
use crate::gpu::worker::{
    ChainAction, ChainEvent, GpuChain, GpuWorker, PassAction, PassEvent, QueueAction, QueueEvent,
    QueueHandler, QueuePass,
};
use crate::virtio::device::{DeviceError, VirtioDevice};
use crate::virtio::locked_queue::{LockedQueue, NotificationRequest, UsedEntry};
use std::collections::BTreeMap;
use virtio_queue::DescriptorChain;
use virtio_queue::Reader;
use virtio_queue::Writer;
use vm_memory::GuestMemoryMmap;
use vstd::prelude::*;

verus! {

/// What is done about a kick, a queue and a command starts from nothing, and goes on as each event
/// demands.
pub proof fn lemma_worker_follows_events<E>(
    handler: QueueHandler,
    kick: QueueEvent<E>,
    kick_action: QueueAction<E>,
    pass: QueuePass,
    popped: PassEvent<E>,
    pass_action: PassAction<E>,
    head: u16,
    chain: GpuChain,
    event: ChainEvent<E>,
    action: ChainAction<E>,
)
    requires
        call_ensures(QueueHandler::new, (), handler),
        call_ensures(QueuePass::new, (), pass),
        call_ensures(GpuChain::new, (head,), chain),
    ensures
        !handler.event_idx,
        !pass.signal_used_queue,
        chain@.head == head,
        chain@.hdr is None,
        chain@.response is ErrUnspec,
        chain@.response_len == 0,
        forall|handler: &mut QueueHandler|
            (#[trigger] call_ensures(
                QueueHandler::handle_queue_event::<E>,
                (handler, kick),
                kick_action,
            )) ==> {
                let (after, due) = (*handler).after(kick);
                *final(handler) == after && kick_action == due
            },
        forall|pass: &mut QueuePass|
            (#[trigger] call_ensures(
                QueuePass::process_queue::<E>,
                (pass, popped),
                pass_action,
            )) ==> {
                let (after, due) = (*pass).after(popped);
                *final(pass) == after && pass_action == due
            },
        forall|chain: &mut GpuChain|
            (#[trigger] call_ensures(
                GpuChain::process_queue_chain::<E>,
                (chain, event),
                action,
            )) ==> {
                let (after, due) = (*chain)@.after(event);
                (*final(chain))@ == after && action == due
            },
{
}

/// A queue that uses event indices has kicks switched off before its commands are executed and on
/// again afterwards, and is looked at once more if there are commands then. What the driver was asked
/// for is remembered, and nothing moves in the rings.
pub proof fn lemma_kicks_are_switched<E>(
    mem: &GuestMemoryMmap<()>,
    locked: QueueAction<E>,
    switched: Result<QueueAction<E>, virtio_queue::Error>,
    queue: &LockedQueue,
)
    ensures
        forall|handler: &mut QueueHandler|
            (#[trigger] call_ensures(QueueHandler::queue_locked::<E>, (handler, queue), locked))
                ==> {
                &&& (*final(handler)).event_idx == queue@.fields.event_idx_enabled
                &&& queue@.fields.event_idx_enabled ==> locked is DisableNotification
                &&& !queue@.fields.event_idx_enabled ==> locked is Process
            },
        forall|handler: &mut QueueHandler, queue: &mut LockedQueue|
            (#[trigger] call_ensures(
                QueueHandler::disable_notification::<E>,
                (handler, queue, mem),
                switched,
            )) ==> {
                &&& *final(handler) == *handler
                &&& (*final(queue))@.fields == (*queue)@.fields
                &&& (*queue)@.fields.event_idx_enabled ==> switched is Ok
                &&& switched matches Ok(action) ==> {
                    &&& action is Process
                    &&& (*final(queue))@.record.notifications == (
                    *queue)@.record.notifications.push(NotificationRequest::Disable)
                }
                &&& switched is Err ==> (*final(queue))@ == (*queue)@
            },
        forall|handler: &mut QueueHandler, queue: &mut LockedQueue|
            (#[trigger] call_ensures(
                QueueHandler::enable_notification::<E>,
                (handler, queue, mem),
                switched,
            )) ==> {
                let asked = (*final(queue))@.record.notifications;
                &&& *final(handler) == *handler
                &&& (*final(queue))@.fields == (*queue)@.fields
                &&& switched matches Ok(action) ==> {
                    &&& asked.len() == (*queue)@.record.notifications.len() + 1
                    &&& asked.last() matches NotificationRequest::Enable { pending }
                    &&& pending ==> action is DisableNotification
                    &&& !pending ==> action == (QueueAction::<E>::Finish { signal: false })
                }
                &&& switched is Err ==> (*final(queue))@ == (*queue)@
            },
{
}

/// Commands are taken from the queue one at a time. When there is none the pass is over, and the driver
/// is notified if a buffer was given back to it. A buffer that cannot be opened ends the pass, with
/// what could not be done.
pub proof fn lemma_commands_are_taken<R, E>(
    mem: &GuestMemoryMmap<()>,
    taken: Result<DescriptorChain<&GuestMemoryMmap<()>>, PassAction<E>>,
    opened: Result<R, E>,
    result: Result<R, PassAction<E>>,
)
    ensures
        forall|pass: &mut QueuePass, queue: &mut LockedQueue|
            (#[trigger] call_ensures(
                QueuePass::take_buffer::<E>,
                (pass, queue, mem),
                taken,
            )) ==> {
                let before = (*queue)@;
                let after = (*final(queue))@;
                &&& *final(pass) == *pass
                &&& after.record.given_back == before.record.given_back
                &&& taken matches Ok(chain) ==> after.record.taken == before.record.taken.push(
                    crate::virtio::guest_queue::chain_head(chain),
                )
                &&& taken matches Err(action) ==> {
                    &&& action == (PassAction::<E>::Finish {
                        signal_used_queue: (*pass).signal_used_queue,
                    })
                    &&& after.record.taken == before.record.taken
                    &&& after.record.misses == before.record.misses + 1
                }
            },
        forall|pass: &mut QueuePass|
            (#[trigger] call_ensures(QueuePass::reader_opened::<R, E>, (pass, opened), result))
                ==> {
                &&& *final(pass) == *pass
                &&& opened matches Ok(reader) ==> result == Ok::<R, PassAction<E>>(reader)
                &&& opened matches Err(e) ==> result == Err::<R, PassAction<E>>(
                    PassAction::Fail(GpuError::CreateReader(e)),
                )
            },
        forall|pass: &mut QueuePass|
            (#[trigger] call_ensures(QueuePass::writer_opened::<R, E>, (pass, opened), result))
                ==> {
                &&& *final(pass) == *pass
                &&& opened matches Ok(writer) ==> result == Ok::<R, PassAction<E>>(writer)
                &&& opened matches Err(e) ==> result == Err::<R, PassAction<E>>(
                    PassAction::Fail(GpuError::CreateWriter(e)),
                )
            },
{
}

/// A buffer that was opened is executed under its own first descriptor.
pub proof fn lemma_opened_buffer_is_executed(
    mem: &GuestMemoryMmap<()>,
    chain: DescriptorChain<&GuestMemoryMmap<()>>,
    opened: (PassAction<virtio_queue::Error>, Option<(Reader<'_, ()>, Writer<'_, ()>)>),
)
    ensures
        forall|pass: &mut QueuePass|
            (#[trigger] call_ensures(QueuePass::open_buffer, (pass, chain, mem), opened)) ==> {
                &&& *final(pass) == *pass
                &&& opened.1 is Some ==> (opened.0 matches PassAction::Execute { head } && head
                    == crate::virtio::guest_queue::chain_head(chain))
                &&& opened.1 is None ==> opened.0 is Fail
            },
{
}

/// A command is asked of the renderer, unless it hands over memory that is not in the guest.
pub proof fn lemma_decoded_command_is_asked<E>(
    hdr: CtrlHdr,
    cmd: GpuCommand,
    mem: &GuestMemoryMmap<()>,
    action: ChainAction<E>,
)
    requires
        cmd.implemented(),
    ensures
        forall|chain: &mut GpuChain|
            (#[trigger] call_ensures(GpuChain::decoded::<E>, (chain, hdr, cmd, mem), action))
                ==> {
                let before = (*chain)@;
                let after = (*final(chain))@;
                &&& after.hdr == Some(hdr)
                &&& after.head == before.head
                &&& after.response_len == before.response_len
                &&& !(cmd is ResourceAttachBacking) ==> action is Call
                &&& action is Call ==> after.response == before.response
                &&& action is Call || action is RejectAndMeasure
                &&& action is RejectAndMeasure ==> after.response is ErrInvalidParameter
                &&& cmd matches GpuCommand::ResourceAttachBacking { resource_id: id, iovecs: pieces }
                    ==> {
                    let held = forall|i: int|
                        0 <= i < pieces@.len() ==> crate::virtio::guest_memory::memory_holds(
                            *mem,
                            (#[trigger] pieces@[i]).addr,
                            pieces@[i].len,
                        );
                    &&& action is Call <==> held
                    &&& action matches ChainAction::Call(call) ==> {
                        &&& call matches GpuCall::AttachBacking { resource_id, iovecs }
                        &&& resource_id == id
                        &&& iovecs@ == pieces@
                    }
                }
            },
{
    assert forall|chain: &mut GpuChain|
        (#[trigger] call_ensures(GpuChain::decoded::<E>, (chain, hdr, cmd, mem), action))
        implies {
        let before = (*chain)@;
        let after = (*final(chain))@;
        &&& after.hdr == Some(hdr)
        &&& after.head == before.head
        &&& after.response_len == before.response_len
        &&& !(cmd is ResourceAttachBacking) ==> action is Call
        &&& action is Call ==> after.response == before.response
        &&& action is Call || action is RejectAndMeasure
        &&& action is RejectAndMeasure ==> after.response is ErrInvalidParameter
        &&& cmd matches GpuCommand::ResourceAttachBacking { resource_id: id, iovecs: pieces } ==> {
            let held = forall|i: int|
                0 <= i < pieces@.len() ==> crate::virtio::guest_memory::memory_holds(
                    *mem,
                    (#[trigger] pieces@[i]).addr,
                    pieces@[i].len,
                );
            &&& action is Call <==> held
            &&& action matches ChainAction::Call(call) ==> {
                &&& call matches GpuCall::AttachBacking { resource_id, iovecs }
                &&& resource_id == id
                &&& iovecs@ == pieces@
            }
        }
    } by {
        let valid = choose|valid: Vec<bool>|
            valid@ == crate::gpu::worker::pieces_held(*mem, cmd) && ((*final(chain))@, action) == (
            #[trigger] (*chain)@.after(ChainEvent::<E>::Decoded { hdr, cmd, valid }));
        if let GpuCommand::ResourceAttachBacking { resource_id: id, iovecs: pieces } = cmd {
            let held = forall|i: int|
                0 <= i < pieces@.len() ==> crate::virtio::guest_memory::memory_holds(
                    *mem,
                    (#[trigger] pieces@[i]).addr,
                    pieces@[i].len,
                );
            if held {
                assert forall|i: int| 0 <= i < valid@.len() implies #[trigger] valid@[i] by {
                    assert(crate::virtio::guest_memory::memory_holds(
                        *mem,
                        pieces@[i].addr,
                        pieces@[i].len,
                    ));
                }
                assert(!valid@.contains(false));
            } else {
                let i = choose|i: int|
                    0 <= i < pieces@.len() && !crate::virtio::guest_memory::memory_holds(
                        *mem,
                        (#[trigger] pieces@[i]).addr,
                        pieces@[i].len,
                    );
                assert(valid@[i] == false);
                assert(valid@.contains(false));
            }
        }
    }
}

/// The response is written only if there is room for it, after its fence was made if the command asks
/// for one.
pub proof fn lemma_room_decides_on_the_response<E>(writer: Writer<'_, ()>, action: ChainAction<E>)
    ensures
        forall|chain: &mut GpuChain|
            (#[trigger] call_ensures(GpuChain::measure::<E>, (chain, &writer), action)) ==> {
                let before = (*chain)@;
                let room = crate::virtio::guest_queue::writer_room(writer);
                &&& (*final(chain))@ == before
                &&& room == 0 ==> action == (ChainAction::<E>::AddUsed {
                    head: before.head,
                    len: 0,
                })
                &&& room > 0 && asks_for_fence(before.hdr) ==> (
                action matches ChainAction::CreateFence(fence) && names_fence(
                    before.hdr->0,
                    fence,
                ))
                &&& room > 0 && !asks_for_fence(before.hdr) ==> (
                action matches ChainAction::Encode { fence } && fence.fence_id == 0 && fence.flags
                    == 0)
            },
{
}

/// The buffer of a command is given back with the given length, as far as the queue can give it back,
/// and that it cannot is told.
pub proof fn lemma_command_is_given_back(
    len: u32,
    mem: &GuestMemoryMmap<()>,
    action: ChainAction<virtio_queue::Error>,
)
    ensures
        forall|chain: &mut GpuChain, queue: &mut LockedQueue|
            (#[trigger] call_ensures(GpuChain::give_back, (chain, len, queue, mem), action)) ==> {
                let before = (*queue)@;
                let after = (*final(queue))@;
                let head = (*chain)@.head;
                let possible = crate::virtio::guest_queue::can_add_used(before.fields, *mem, head);
                &&& (*final(chain))@ == (*chain)@
                &&& after.record.taken == before.record.taken
                &&& possible ==> {
                    &&& action == ChainAction::<virtio_queue::Error>::Finish(Ok(true))
                    &&& after.record.given_back == before.record.given_back.push(
                        UsedEntry { head, len },
                    )
                }
                &&& !possible ==> {
                    &&& action matches ChainAction::Finish(Err(_))
                    &&& after.record.given_back == before.record.given_back
                }
            },
{
}

/// A response is read as it is kept, and a worker keeps the queues it was made for.
pub proof fn lemma_what_is_kept<Q>(
    chain: GpuChain,
    response: &GpuResponse,
    control: Q,
    cursor: Q,
    poll: bool,
    worker: GpuWorker<Q>,
    of_control: &Q,
    of_cursor: &Q,
)
    requires
        call_ensures(GpuChain::response, (&chain,), response),
        call_ensures(GpuWorker::<Q>::new, (control, cursor, poll), worker),
        call_ensures(GpuWorker::<Q>::queue, (&worker, false), of_control),
        call_ensures(GpuWorker::<Q>::queue, (&worker, true), of_cursor),
    ensures
        *response == chain@.response,
        *of_control == control,
        *of_cursor == cursor,
        worker.spec_has_poll_event() == poll,
{
}

/// A GPU does what it is asked: acknowledging features keeps those that it offers, an activation hands
/// the queues and the display to a worker, which is handed out once, and stopping gives it up. It
/// cannot be activated again after it was reset.
pub proof fn lemma_gpu_does_what_it_is_asked<S, Q>(
    features: u64,
    queues: BTreeMap<usize, Q>,
    activated: Result<(), DeviceError>,
    supported: bool,
    socket: S,
    worker: Option<GpuStart<S, Q>>,
    offset: usize,
    data: &[u8],
    written: Result<(), DeviceError>,
)
    ensures
        forall|gpu: &mut GpuDevice<S, Q>|
            (#[trigger] call_ensures(
                <GpuDevice<S, Q> as VirtioDevice<Q>>::set_acked_features,
                (gpu, features),
                (),
            )) ==> {
                &&& (*final(gpu))@.acked_features == features & 0x0101_3100_001b
                &&& (*final(gpu))@.gpu_backend == (*gpu)@.gpu_backend
                &&& (*final(gpu))@.worker == (*gpu)@.worker
                &&& (*final(gpu))@.gpu_config == (*gpu)@.gpu_config
            },
        forall|gpu: &mut GpuDevice<S, Q>|
            (#[trigger] call_ensures(
                <GpuDevice<S, Q> as VirtioDevice<Q>>::activate,
                (gpu, queues),
                activated,
            )) ==> {
                let before = (*gpu)@;
                let after = (*final(gpu))@;
                let complete = queues@.dom().contains(0) && queues@.dom().contains(1);
                &&& activated is Ok <==> complete && before.gpu_backend is Some
                &&& activated is Ok ==> {
                    &&& after.worker is Some
                    &&& after.worker->0.control_queue == queues@[0]
                    &&& after.worker->0.cursor_queue == queues@[1]
                    &&& after.worker->0.gpu_backend == before.gpu_backend->0
                    &&& after.worker->0.gpu_config == before.gpu_config
                    &&& after.worker_active
                    &&& after.gpu_backend is None
                }
                &&& activated is Err ==> after == before
                &&& !complete ==> activated == Err::<(), DeviceError>(
                    DeviceError::MissingControlQueue,
                )
                &&& complete && before.gpu_backend is None ==> activated == Err::<(), DeviceError>(
                    DeviceError::MissingGpuBackend,
                )
            },
        forall|gpu: &mut GpuDevice<S, Q>|
            (#[trigger] call_ensures(<GpuDevice<S, Q> as VirtioDevice<Q>>::stop, (gpu,), ())) ==> {
                &&& (*final(gpu))@.worker is None
                &&& !(*final(gpu))@.worker_active
                &&& (*final(gpu))@.gpu_backend == (*gpu)@.gpu_backend
                &&& (*final(gpu))@.acked_features == (*gpu)@.acked_features
            },
        forall|gpu: &mut GpuDevice<S, Q>|
            (#[trigger] call_ensures(
                <GpuDevice<S, Q> as VirtioDevice<Q>>::reset,
                (gpu,),
                supported,
            )) ==> {
                &&& !supported
                &&& (*final(gpu))@.worker is None
                &&& !(*final(gpu))@.worker_active
            },
        forall|gpu: &mut GpuDevice<S, Q>|
            (#[trigger] call_ensures(
                <GpuDevice<S, Q> as VirtioDevice<Q>>::write_config,
                (gpu, offset, data),
                written,
            )) ==> {
                &&& written == Err::<(), DeviceError>(DeviceError::ConfigWriteUnsupported)
                &&& (*final(gpu))@ == (*gpu)@
            },
        forall|gpu: &mut GpuDevice<S, Q>|
            (#[trigger] call_ensures(GpuDevice::<S, Q>::set_gpu_socket, (gpu, socket), ())) ==> {
                &&& (*final(gpu))@.gpu_backend == Some(socket)
                &&& (*final(gpu))@.worker == (*gpu)@.worker
                &&& (*final(gpu))@.worker_active == (*gpu)@.worker_active
                &&& (*final(gpu))@.acked_features == (*gpu)@.acked_features
                &&& (*final(gpu))@.gpu_config == (*gpu)@.gpu_config
            },
        forall|gpu: &mut GpuDevice<S, Q>|
            (#[trigger] call_ensures(GpuDevice::<S, Q>::take_worker, (gpu,), worker)) ==> {
                &&& worker == (*gpu)@.worker
                &&& (*final(gpu))@.worker is None
                &&& (*final(gpu))@.worker_active == (*gpu)@.worker_active
                &&& (*final(gpu))@.gpu_backend == (*gpu)@.gpu_backend
                &&& (*final(gpu))@.acked_features == (*gpu)@.acked_features
            },
{
}

/// A set-up is read as it was made.
pub proof fn lemma_set_up_is_kept(
    mode: GpuMode,
    capset: GpuCapset,
    flags: GpuFlags,
    config: GpuConfig,
    of_mode: GpuMode,
    of_capset: GpuCapset,
    of_flags: &GpuFlags,
)
    requires
        call_ensures(
            GpuConfig::new,
            (mode, Some(capset), flags),
            Ok::<GpuConfig, GpuConfigError>(config),
        ),
        call_ensures(GpuConfig::gpu_mode, (&config,), of_mode),
        call_ensures(GpuConfig::capsets, (&config,), of_capset),
        call_ensures(GpuConfig::flags, (&config,), of_flags),
    ensures
        of_mode == mode,
        of_capset == capset,
        *of_flags == flags,
{
}

/// What the single ways are, and which of them each mode uses.
pub proof fn lemma_single_ways(
    none: GpuCapset,
    virgl: GpuCapset,
    virgl2: GpuCapset,
    vulkan: GpuCapset,
    gles: GpuCapset,
    of_virglrenderer: GpuCapset,
    of_gfxstream: GpuCapset,
)
    requires
        call_ensures(GpuCapset::empty, (), none),
        call_ensures(GpuCapset::virgl, (), virgl),
        call_ensures(GpuCapset::virgl2, (), virgl2),
        call_ensures(GpuCapset::gfxstream_vulkan, (), vulkan),
        call_ensures(GpuCapset::gfxstream_gles, (), gles),
        call_ensures(GpuConfig::default_virglrender_capset_mask, (), of_virglrenderer),
        call_ensures(GpuConfig::default_gfxstream_capset_mask, (), of_gfxstream),
    ensures
        crate::gpu::laws::ways(none) == 0,
        crate::gpu::laws::ways(virgl) == 1 && virgl.virgl,
        crate::gpu::laws::ways(virgl2) == 1 && virgl2.virgl2,
        crate::gpu::laws::ways(vulkan) == 1 && vulkan.gfxstream_vulkan,
        crate::gpu::laws::ways(gles) == 1 && gles.gfxstream_gles,
        of_virglrenderer == virgl.union(virgl2),
        of_gfxstream == vulkan.union(gles),
{
}

/// Texts that are joined keep their order, with a comma and a space between any two of them.
pub proof fn lemma_joined_texts(texts: Seq<Seq<char>>, text: Seq<char>)
    ensures
        crate::gpu::config::joined(seq![]).len() == 0,
        crate::gpu::config::joined(seq![text]) == text,
        texts.len() > 0 ==> crate::gpu::config::joined(texts.push(text))
            == crate::gpu::config::joined(texts) + seq![',', ' '] + text,
{
    reveal_strlit(", ");
    assert(", "@ =~= seq![',', ' ']);
    assert(texts.push(text).drop_last() =~= texts);
}

/// A set is written with the names of the ways in it, always in the same order.
pub proof fn lemma_written_sets(capset: GpuCapset, text: String)
    requires
        call_ensures(GpuCapset::to_string, (&capset,), text),
    ensures
        ({
            let names = capset.spec_names();
            let first: int = if capset.virgl {
                1
            } else {
                0
            };
            let second: int = first + if capset.virgl2 {
                1int
            } else {
                0
            };
            &&& text@ == crate::gpu::config::joined(names)
            &&& capset.virgl ==> names[0] == "virgl"@
            &&& capset.virgl2 ==> names[first] == "virgl2"@
            &&& capset.gfxstream_vulkan ==> names[second] == "gfxstream-vulkan"@
            &&& capset.gfxstream_gles ==> names.last() == "gfxstream-gles"@
        }),
{
}

/// A mode is written so that it is chosen again by what was written, whether the case counts or not,
/// and all modes are offered.
pub proof fn lemma_written_modes(
    mode: GpuMode,
    text: String,
    input: &str,
    ignore_case: bool,
    read: Option<GpuMode>,
    modes: Vec<GpuMode>,
)
    requires
        call_ensures(GpuMode::to_string, (&mode,), text),
        call_ensures(GpuMode::from_str, (input, ignore_case), read),
        call_ensures(GpuMode::value_variants, (), modes),
    ensures
        mode == GpuMode::VirglRenderer ==> text@ == "virglrenderer"@,
        mode == GpuMode::Gfxstream ==> text@ == "gfxstream"@,
        input@ == text@ ==> read == Some(mode),
        !ignore_case && read == Some(GpuMode::VirglRenderer) ==> input@ == "virglrenderer"@
            || input@ == "virgl-renderer"@,
        !ignore_case && read == Some(GpuMode::Gfxstream) ==> input@ == "gfxstream"@,
        input@ == "virgl-renderer"@ ==> read == Some(GpuMode::VirglRenderer),
        modes@.contains(mode),
        modes@.no_duplicates(),
{
    crate::gpu::config::lemma_mode_is_named(mode, ignore_case);
    crate::gpu::laws::lemma_mode_by_name(input@);
    assert(modes@[0] == GpuMode::VirglRenderer);
    assert(modes@[1] == GpuMode::Gfxstream);
}

/// A back-end is made for a GPU, and gives it out.
pub proof fn lemma_gpu_behind_a_back_end<S, Q>(
    gpu: GpuDevice<S, Q>,
    back_end: crate::gpu::vhost::VhostUserGpuBackend<S, Q>,
)
    requires
        call_ensures(crate::gpu::vhost::VhostUserGpuBackend::<S, Q>::new, (gpu,), back_end),
    ensures
        crate::vhost_user::backend::VhostUserDeviceImplementer::spec_device(&back_end) == gpu,
{
}

/// The configuration space of a GPU is written with its four numbers, and a read gives all of it from
/// the offset on, or is refused.
pub proof fn lemma_config_is_read<S, Q>(
    config: crate::gpu::device::VirtioGpuConfig,
    bytes: Vec<u8>,
    gpu: GpuDevice<S, Q>,
    offset: usize,
    result: Result<(), DeviceError>,
    i: int,
)
    requires
        call_ensures(crate::gpu::device::VirtioGpuConfig::to_bytes, (&config,), bytes),
        offset <= 16,
    ensures
        bytes@.len() == 16,
        crate::virtio::le_bytes::le_value(bytes@.subrange(0, 4)) == config.events_read,
        crate::virtio::le_bytes::le_value(bytes@.subrange(4, 8)) == config.events_clear,
        crate::virtio::le_bytes::le_value(bytes@.subrange(8, 12)) == config.num_scanouts,
        crate::virtio::le_bytes::le_value(bytes@.subrange(12, 16)) == config.num_capsets,
        forall|data: &mut [u8]|
            (#[trigger] call_ensures(
                <GpuDevice<S, Q> as VirtioDevice<Q>>::read_config,
                (&gpu, offset, data),
                result,
            )) && 0 <= i < (*data)@.len() ==> {
                &&& (*final(data))@.len() == (*data)@.len()
                &&& result is Ok <==> offset + (*data)@.len() == 16
                &&& result is Ok ==> (*final(data))@[i] == gpu@.virtio_cfg.spec_bytes()[offset + i]
                &&& result is Err ==> (*final(data))@ == (*data)@
            },
{
    crate::gpu::laws::lemma_config_layout(config);
    assert forall|data: &mut [u8]|
        (#[trigger] call_ensures(
            <GpuDevice<S, Q> as VirtioDevice<Q>>::read_config,
            (&gpu, offset, data),
            result,
        )) && 0 <= i < (*data)@.len() implies {
        &&& (*final(data))@.len() == (*data)@.len()
        &&& result is Ok <==> offset + (*data)@.len() == 16
        &&& result is Ok ==> (*final(data))@[i] == gpu@.virtio_cfg.spec_bytes()[offset + i]
        &&& result is Err ==> (*final(data))@ == (*data)@
    } by {
        crate::gpu::laws::lemma_config_reads(gpu, offset, (*data)@, i);
    }
}

/// A GPU offers the features that it offers, wants two queues, and tells what the driver has chosen.
pub proof fn lemma_what_a_gpu_offers<S, Q>(
    gpu: GpuDevice<S, Q>,
    features: u64,
    acked: u64,
    queues: Vec<crate::virtio::queue_args::QueueArgs>,
)
    requires
        call_ensures(<GpuDevice<S, Q> as VirtioDevice<Q>>::avail_features, (&gpu,), features),
        call_ensures(<GpuDevice<S, Q> as VirtioDevice<Q>>::acked_features, (&gpu,), acked),
        call_ensures(<GpuDevice<S, Q> as VirtioDevice<Q>>::queues, (&gpu,), queues),
    ensures
        features == 0x0101_3100_001b,
        acked == gpu@.acked_features,
        queues@.len() == 2,
        queues@[0] == crate::virtio::queue_args::QueueArgs::of_size(256),
        queues@[1] == crate::virtio::queue_args::QueueArgs::of_size(256),
{
}

} // verus!
