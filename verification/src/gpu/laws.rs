//! What holds of the commands of a GPU, whatever the driver asks for.

use crate::gpu::config::{GpuCapset, GpuConfig, GpuConfigError, GpuFlags, GpuMode};
use crate::gpu::device::{GpuDevice, GpuError, VirtioGpuConfig};
use crate::gpu::protocol::{process_gpu_command, CtrlHdr, GpuCall, GpuCommand, GpuResponse};
use crate::gpu::worker::{
    ChainAction, ChainEvent, Fence, GpuChainView, GpuWorker, PassAction, PassEvent, QueueAction,
    QueueEvent, QueueHandler, QueuePass, VirtioGpuRing, WorkerStep, WorkerToken,
};
use crate::virtio::device::{DeviceError, VirtioDevice};
use vstd::prelude::*;

verus! {

/// A rectangle or a box that the driver gives is the one that the renderer gets: neither its edges nor
/// its sides are exchanged or changed. A rectangle is a box of one layer.
pub proof fn lemma_rectangles_are_passed_on(
    hdr: CtrlHdr,
    cmd: GpuCommand,
    valid: &[bool],
    calls: (GpuCall, Result<GpuCall, GpuResponse>),
)
    requires
        call_ensures(process_gpu_command, (hdr, cmd, valid), calls),
    ensures
        cmd matches GpuCommand::SetScanout { r, .. } ==> {
            &&& calls.1 matches Ok(GpuCall::SetScanout { rect, .. })
            &&& rect.x == r.x
            &&& rect.y == r.y
            &&& rect.width == r.width
            &&& rect.height == r.height
        },
        cmd matches GpuCommand::ResourceFlush { r, .. } ==> {
            &&& calls.1 matches Ok(GpuCall::FlushResource { rect, .. })
            &&& rect.x == r.x
            &&& rect.y == r.y
            &&& rect.width == r.width
            &&& rect.height == r.height
        },
        cmd matches GpuCommand::TransferToHost2d(req) ==> {
            &&& calls.1 matches Ok(GpuCall::TransferWrite { transfer, .. })
            &&& transfer.x == req.r.x
            &&& transfer.y == req.r.y
            &&& transfer.w == req.r.width
            &&& transfer.h == req.r.height
            &&& transfer.offset == req.offset
            &&& transfer.z == 0
            &&& transfer.d == 1
            &&& transfer.level == 0
            &&& transfer.stride == 0
            &&& transfer.layer_stride == 0
        },
        cmd matches GpuCommand::TransferToHost3d(req) ==> {
            &&& calls.1 matches Ok(GpuCall::TransferWrite { transfer, .. })
            &&& transfer.x == req.box_.x
            &&& transfer.y == req.box_.y
            &&& transfer.z == req.box_.z
            &&& transfer.w == req.box_.w
            &&& transfer.h == req.box_.h
            &&& transfer.d == req.box_.d
            &&& transfer.offset == req.offset
            &&& transfer.level == req.level
            &&& transfer.stride == req.stride
            &&& transfer.layer_stride == req.layer_stride
        },
        cmd matches GpuCommand::TransferFromHost3d(req) ==> {
            &&& calls.1 matches Ok(GpuCall::TransferRead { transfer, .. })
            &&& transfer.x == req.box_.x
            &&& transfer.y == req.box_.y
            &&& transfer.z == req.box_.z
            &&& transfer.w == req.box_.w
            &&& transfer.h == req.box_.h
            &&& transfer.d == req.box_.d
            &&& transfer.offset == req.offset
            &&& transfer.level == req.level
            &&& transfer.stride == req.stride
            &&& transfer.layer_stride == req.layer_stride
        },
{
}

/// A command about a resource is about the same resource for the renderer.
pub proof fn lemma_resources_are_passed_on(
    hdr: CtrlHdr,
    cmd: GpuCommand,
    valid: &[bool],
    calls: (GpuCall, Result<GpuCall, GpuResponse>),
)
    requires
        call_ensures(process_gpu_command, (hdr, cmd, valid), calls),
    ensures
        cmd matches GpuCommand::ResourceUnref(id) ==> {
            calls.1 matches Ok(GpuCall::UnrefResource { resource_id }) && resource_id == id
        },
        cmd matches GpuCommand::SetScanout { resource_id: id, .. } ==> {
            calls.1 matches Ok(GpuCall::SetScanout { resource_id, .. }) && resource_id == id
        },
        cmd matches GpuCommand::ResourceFlush { resource_id: id, .. } ==> {
            calls.1 matches Ok(GpuCall::FlushResource { resource_id, .. }) && resource_id == id
        },
        cmd matches GpuCommand::TransferToHost2d(req) ==> {
            calls.1 matches Ok(GpuCall::TransferWrite { resource_id, .. }) && resource_id
                == req.resource_id
        },
        cmd matches GpuCommand::TransferToHost3d(req) ==> {
            calls.1 matches Ok(GpuCall::TransferWrite { resource_id, .. }) && resource_id
                == req.resource_id
        },
        cmd matches GpuCommand::TransferFromHost3d(req) ==> {
            calls.1 matches Ok(GpuCall::TransferRead { resource_id, .. }) && resource_id
                == req.resource_id
        },
        cmd matches GpuCommand::ResourceDetachBacking(id) ==> {
            calls.1 matches Ok(GpuCall::DetachBacking { resource_id }) && resource_id == id
        },
        cmd matches GpuCommand::CtxAttachResource(id) ==> {
            calls.1 matches Ok(GpuCall::ContextAttachResource { resource_id, .. }) && resource_id
                == id
        },
        cmd matches GpuCommand::CtxDetachResource(id) ==> {
            calls.1 matches Ok(GpuCall::ContextDetachResource { resource_id, .. }) && resource_id
                == id
        },
{
}

/// A command belongs to the context that its header names. Pixels of a resource in two dimensions
/// are copied in the first context, and for every command the first context is forced.
pub proof fn lemma_contexts_are_passed_on(
    hdr: CtrlHdr,
    cmd: GpuCommand,
    valid: &[bool],
    calls: (GpuCall, Result<GpuCall, GpuResponse>),
)
    requires
        call_ensures(process_gpu_command, (hdr, cmd, valid), calls),
    ensures
        calls.0 is ForceCtx0,
        cmd matches GpuCommand::CtxCreate { context_init: init, debug_name } ==> {
            &&& calls.1 matches Ok(GpuCall::CreateContext { ctx_id, context_init, context_name })
            &&& ctx_id == hdr.ctx_id
            &&& context_init == init
            &&& context_name == Some(debug_name)
        },
        cmd is CtxDestroy ==> {
            calls.1 matches Ok(GpuCall::DestroyContext { ctx_id }) && ctx_id == hdr.ctx_id
        },
        cmd is CtxAttachResource ==> {
            calls.1 matches Ok(GpuCall::ContextAttachResource { ctx_id, .. }) && ctx_id
                == hdr.ctx_id
        },
        cmd is CtxDetachResource ==> {
            calls.1 matches Ok(GpuCall::ContextDetachResource { ctx_id, .. }) && ctx_id
                == hdr.ctx_id
        },
        cmd is TransferToHost2d ==> {
            calls.1 matches Ok(GpuCall::TransferWrite { ctx_id, .. }) && ctx_id == 0
        },
        cmd is TransferToHost3d ==> {
            calls.1 matches Ok(GpuCall::TransferWrite { ctx_id, .. }) && ctx_id == hdr.ctx_id
        },
        cmd is TransferFromHost3d ==> {
            calls.1 matches Ok(GpuCall::TransferRead { ctx_id, .. }) && ctx_id == hdr.ctx_id
        },
        cmd matches GpuCommand::CmdSubmit3d { cmd_data, fence_ids: before } ==> {
            &&& calls.1 matches Ok(GpuCall::SubmitCommand { ctx_id, commands, fence_ids })
            &&& ctx_id == hdr.ctx_id
            &&& commands@ == cmd_data@
            &&& fence_ids@ == before@
        },
{
}

/// Displays, cursors and ways to talk to the renderer are those that the driver asks for, and a
/// cursor keeps its position and the point that points.
pub proof fn lemma_displays_are_passed_on(
    hdr: CtrlHdr,
    cmd: GpuCommand,
    valid: &[bool],
    calls: (GpuCall, Result<GpuCall, GpuResponse>),
)
    requires
        call_ensures(process_gpu_command, (hdr, cmd, valid), calls),
    ensures
        cmd is GetDisplayInfo ==> calls.1 matches Ok(GpuCall::DisplayInfo),
        cmd matches GpuCommand::GetEdid(id) ==> {
            calls.1 matches Ok(GpuCall::GetEdid { scanout_id }) && scanout_id == id
        },
        cmd matches GpuCommand::SetScanout { scanout_id: id, .. } ==> {
            calls.1 matches Ok(GpuCall::SetScanout { scanout_id, .. }) && scanout_id == id
        },
        cmd matches GpuCommand::UpdateCursor(req) ==> {
            &&& calls.1 matches Ok(GpuCall::UpdateCursor { resource_id, cursor_pos, hot_x, hot_y })
            &&& resource_id == req.resource_id
            &&& cursor_pos.scanout_id == req.pos.scanout_id
            &&& cursor_pos.x == req.pos.x
            &&& cursor_pos.y == req.pos.y
            &&& hot_x == req.hot_x
            &&& hot_y == req.hot_y
        },
        cmd matches GpuCommand::MoveCursor(req) ==> {
            &&& calls.1 matches Ok(GpuCall::MoveCursor { resource_id, cursor })
            &&& resource_id == req.resource_id
            &&& cursor.scanout_id == req.pos.scanout_id
            &&& cursor.x == req.pos.x
            &&& cursor.y == req.pos.y
        },
        cmd matches GpuCommand::GetCapsetInfo(asked) ==> {
            calls.1 matches Ok(GpuCall::GetCapsetInfo { index }) && index == asked
        },
        cmd matches GpuCommand::GetCapset { capset_id: id, capset_version } ==> {
            calls.1 matches Ok(GpuCall::GetCapset { capset_id, version }) && capset_id == id
                && version == capset_version
        },
{
}

/// Resources are made as the driver asks for. One in two dimensions becomes a texture of one layer that
/// is rendered to, with the format, the width and the height that were asked for.
pub proof fn lemma_resources_are_made_as_asked(
    hdr: CtrlHdr,
    cmd: GpuCommand,
    valid: &[bool],
    calls: (GpuCall, Result<GpuCall, GpuResponse>),
)
    requires
        call_ensures(process_gpu_command, (hdr, cmd, valid), calls),
    ensures
        cmd matches GpuCommand::ResourceCreate2d(req) ==> {
            &&& calls.1 matches Ok(GpuCall::ResourceCreate3d { resource_id, resource })
            &&& resource_id == req.resource_id
            &&& resource.format == req.format
            &&& resource.width == req.width
            &&& resource.height == req.height
            &&& resource.target == 2
            &&& resource.bind == 2
            &&& resource.depth == 1
            &&& resource.array_size == 1
            &&& resource.last_level == 0
            &&& resource.nr_samples == 0
            &&& resource.flags == 0
        },
        cmd matches GpuCommand::ResourceCreate3d(req) ==> {
            &&& calls.1 matches Ok(GpuCall::ResourceCreate3d { resource_id, resource })
            &&& resource_id == req.resource_id
            &&& resource.target == req.resource.target
            &&& resource.format == req.resource.format
            &&& resource.bind == req.resource.bind
            &&& resource.width == req.resource.width
            &&& resource.height == req.resource.height
            &&& resource.depth == req.resource.depth
            &&& resource.array_size == req.resource.array_size
            &&& resource.last_level == req.resource.last_level
            &&& resource.nr_samples == req.resource.nr_samples
            &&& resource.flags == req.resource.flags
        },
{
}

/// A command is refused without asking the renderer only if it hands over memory that is not in the
/// guest. Memory that is in the guest is handed over piece by piece as the driver gave it.
pub proof fn lemma_memory_is_checked(
    hdr: CtrlHdr,
    cmd: GpuCommand,
    valid: &[bool],
    calls: (GpuCall, Result<GpuCall, GpuResponse>),
)
    requires
        call_ensures(process_gpu_command, (hdr, cmd, valid), calls),
        cmd.implemented(),
    ensures
        !(cmd is ResourceAttachBacking) ==> calls.1 is Ok,
        cmd matches GpuCommand::ResourceAttachBacking { resource_id: id, iovecs: pieces } ==> {
            &&& (forall|i: int| 0 <= i < valid@.len() ==> #[trigger] valid@[i]) ==> {
                &&& calls.1 matches Ok(GpuCall::AttachBacking { resource_id, iovecs })
                &&& resource_id == id
                &&& iovecs@ == pieces@
            }
            &&& (exists|i: int| 0 <= i < valid@.len() && !#[trigger] valid@[i])
                ==> calls.1 matches Err(GpuResponse::ErrInvalidParameter)
        },
{
    if valid@.contains(false) {
        let i = choose|i: int| 0 <= i < valid@.len() && valid@[i] == false;
        assert(!valid@[i]);
    }
    if exists|i: int| 0 <= i < valid@.len() && !#[trigger] valid@[i] {
        let i = choose|i: int| 0 <= i < valid@.len() && !#[trigger] valid@[i];
        assert(valid@[i] == false);
        assert(valid@.contains(false));
    }
}

/// The commands that the device does not know how to execute are those about names for other devices
/// and about blobs. It executes all others.
pub proof fn lemma_implemented_commands(cmd: GpuCommand, implemented: bool)
    requires
        call_ensures(GpuCommand::is_implemented, (&cmd,), implemented),
    ensures
        implemented == cmd.implemented(),
        implemented == match cmd {
            GpuCommand::ResourceAssignUuid => false,
            GpuCommand::ResourceCreateBlob | GpuCommand::SetScanoutBlob => false,
            GpuCommand::ResourceMapBlob | GpuCommand::ResourceUnmapBlob => false,
            _ => true,
        },
{
}

/// Which queue a kick is about, and what stops the worker: each token leads to a step of its own, and
/// the queue that is handled is the one that was kicked.
pub proof fn lemma_each_token_has_its_step<Q>(
    worker: GpuWorker<Q>,
    token: WorkerToken,
    step: WorkerStep,
    queue: &Q,
)
    requires
        call_ensures(GpuWorker::<Q>::run, (&worker, token), step),
        step matches WorkerStep::HandleQueue { cursor } ==> call_ensures(
            GpuWorker::<Q>::queue,
            (&worker, cursor),
            queue,
        ),
    ensures
        step is Quit <==> token is Quit,
        step is PollRenderer <==> token is Poll,
        step is HandleQueue <==> token is ControlQ || token is CursorQ,
        token is ControlQ ==> *queue == worker.spec_control_queue(),
        token is CursorQ ==> *queue == worker.spec_cursor_queue(),
{
}

/// A worker watches what stops it and the kicks of both queues, each once, and the renderer if that
/// has something to watch.
pub proof fn lemma_worker_watches_its_queues<Q>(worker: GpuWorker<Q>, tokens: Vec<WorkerToken>)
    requires
        call_ensures(GpuWorker::<Q>::watched, (&worker,), tokens),
    ensures
        tokens@.contains(WorkerToken::Quit),
        tokens@.contains(WorkerToken::ControlQ),
        tokens@.contains(WorkerToken::CursorQ),
        tokens@.contains(WorkerToken::Poll) <==> worker.spec_has_poll_event(),
        tokens@.no_duplicates(),
{
    assert(tokens@[0] == WorkerToken::Quit);
    assert(tokens@[1] == WorkerToken::ControlQ);
    assert(tokens@[2] == WorkerToken::CursorQ);
    if worker.spec_has_poll_event() {
        assert(tokens@[3] == WorkerToken::Poll);
    }
}

/// Each thing that is done about a kick has its reason: an enabled queue is locked and a locked queue
/// processed, with kicks switched off before if it uses event indices. Then kicks are switched on
/// again, and it starts over as long as there are new commands. Without event indices once is
/// enough. An error is handed on.
pub proof fn lemma_kicks_are_handled<E>(handler: QueueHandler, event: QueueEvent<E>)
    ensures
        ({
            let (then, action) = handler.after(event);
            &&& action is ReadKick <==> event is Started
            &&& action is Lock <==> event == QueueEvent::<E>::KickRead(Ok(true))
            &&& action is DisableNotification <==> (event == QueueEvent::<E>::Locked(Some(true))
                || event == QueueEvent::<E>::NotificationEnabled(true))
            &&& action is Process <==> (event is NotificationDisabled || event
                == QueueEvent::<E>::Locked(Some(false)))
            &&& action is EnableNotification <==> (event matches QueueEvent::Processed(Ok(_))
                && handler.event_idx)
            &&& action is Finish <==> {
                ||| event == QueueEvent::<E>::KickRead(Ok(false))
                ||| event == QueueEvent::<E>::Locked(None)
                ||| event == QueueEvent::<E>::NotificationEnabled(false)
                ||| event matches QueueEvent::Processed(Ok(_)) && !handler.event_idx
            }
            &&& event matches QueueEvent::KickRead(Err(e)) ==> action == QueueAction::Fail(e)
            &&& event matches QueueEvent::Processed(Err(e)) ==> action == QueueAction::Fail(e)
            &&& then.event_idx == match event {
                QueueEvent::Locked(Some(event_idx)) => event_idx,
                _ => handler.event_idx,
            }
        }),
{
}

/// A queue that was found to use event indices is left only when kicks are on and no command is
/// left, however often commands were executed in between.
pub proof fn lemma_no_command_is_left<E>(handler: QueueHandler, notify: bool)
    ensures
        ({
            let locked = handler.after(QueueEvent::<E>::Locked(Some(true))).0;
            let (executed, next) = locked.after(QueueEvent::<E>::Processed(Ok(notify)));
            let (again, action) = executed.after(QueueEvent::<E>::NotificationEnabled(true));
            let (ended, last) = executed.after(QueueEvent::<E>::NotificationEnabled(false));
            &&& next == QueueAction::<E>::EnableNotification { signal: notify }
            &&& action is DisableNotification
            &&& again.after(QueueEvent::<E>::NotificationDisabled).1 is Process
            &&& again.event_idx
            &&& last == QueueAction::<E>::Finish { signal: false }
        }),
{
}

/// Commands are taken one after another until there is none, each is executed with the buffer it
/// came in, and what went wrong is handed on.
pub proof fn lemma_commands_are_taken_in_turn<E>(pass: QueuePass, event: PassEvent<E>)
    ensures
        ({
            let (then, action) = pass.after(event);
            &&& action is Pop <==> (event is Started || event matches PassEvent::Executed(Ok(_)))
            &&& event matches PassEvent::Popped(Ok(Some(taken))) ==> {
                action matches PassAction::Execute { head } && head == taken
            }
            &&& action is Execute ==> (event matches PassEvent::Popped(Ok(Some(_))))
            &&& action is Finish <==> event == PassEvent::<E>::Popped(Ok(None))
            &&& action matches PassAction::Finish { signal_used_queue } ==> signal_used_queue
                == pass.signal_used_queue
            &&& event matches PassEvent::Popped(Err(e)) ==> action == PassAction::Fail(e)
            &&& event matches PassEvent::Executed(Err(e)) ==> action == PassAction::Fail(e)
            &&& then.signal_used_queue == (pass.signal_used_queue || event
                == PassEvent::<E>::Executed(Ok(true)))
        }),
{
}

/// Whether the header of a command asks for a fence.
pub open spec fn asks_for_fence(hdr: Option<CtrlHdr>) -> bool {
    hdr matches Some(hdr) && hdr.flags & 1u32 != 0
}

/// Whether a fence is the one that a header names, in all that it says of it.
pub open spec fn names_fence(hdr: CtrlHdr, fence: Fence) -> bool {
    &&& fence.flags == hdr.flags
    &&& fence.fence_id == hdr.fence_id
    &&& fence.ctx_id == hdr.ctx_id
    &&& fence.ring_idx == hdr.ring_idx
}

/// A command is decoded into what the renderer is asked, with the header kept for the response. A
/// command that is refused has the refusal for a response. What the renderer answers, be it well or
/// not, is the response.
pub proof fn lemma_response_is_the_answer<E>(
    chain: GpuChainView,
    hdr: CtrlHdr,
    cmd: GpuCommand,
    valid: Vec<bool>,
    pieces: &[bool],
    calls: (GpuCall, Result<GpuCall, GpuResponse>),
    answer: GpuResponse,
)
    requires
        pieces@ == valid@,
        call_ensures(process_gpu_command, (hdr, cmd, pieces), calls),
    ensures
        ({
            let (then, action) = chain.after(ChainEvent::<E>::Decoded { hdr, cmd, valid });
            &&& then.hdr == Some(hdr)
            &&& then.head == chain.head
            &&& then.response_len == chain.response_len
            &&& match calls.1 {
                Ok(call) => action == ChainAction::<E>::Call(call) && then.response
                    == chain.response,
                Err(refusal) => action is RejectAndMeasure && then.response == refusal,
            }
        }),
        chain.after(ChainEvent::<E>::NotDecoded) == (chain, ChainAction::<E>::Measure),
        chain.after(ChainEvent::<E>::Called(Ok(answer))).0 == (GpuChainView {
            response: answer,
            ..chain
        }),
        chain.after(ChainEvent::<E>::Called(Err(answer))).0 == (GpuChainView {
            response: answer,
            ..chain
        }),
        chain.after(ChainEvent::<E>::Called(Ok(answer))).1 is Measure,
        chain.after(ChainEvent::<E>::Called(Err(answer))).1 is Measure,
        chain.after(ChainEvent::<E>::FenceCreated(Err(answer))).0 == (GpuChainView {
            response: answer,
            ..chain
        }),
        chain.after(ChainEvent::<E>::FenceCreated(Ok(()))).0 == chain,
{
}

/// A fence is made, and waited for, exactly if the header of the command has the flag for it, and it
/// is the fence that the header names. The response says the same of it, or nothing if there is none.
/// The fence belongs to a ring of the context exactly if the header has the flag for that.
pub proof fn lemma_fence_is_that_of_the_header<E>(chain: GpuChainView, room: usize, len: u32)
    requires
        room > 0,
    ensures
        asks_for_fence(chain.hdr) ==> {
            let hdr = chain.hdr->0;
            let made = chain.after(ChainEvent::<E>::FenceCreated(Ok(()))).1;
            let waited = chain.after(ChainEvent::<E>::Encoded(Ok(len))).1;
            &&& chain.after(ChainEvent::<E>::Room(room)).1 matches ChainAction::CreateFence(fence)
                && names_fence(hdr, fence)
            &&& made matches ChainAction::Encode { fence } && names_fence(hdr, fence)
            &&& waited matches ChainAction::ProcessFence { ring, fence_id, .. }
            &&& fence_id == hdr.fence_id
            &&& hdr.flags & 2u32 == 0 ==> ring == VirtioGpuRing::Global
            &&& hdr.flags & 2u32 != 0 ==> ring == (VirtioGpuRing::ContextSpecific {
                ctx_id: hdr.ctx_id,
                ring_idx: hdr.ring_idx,
            })
        },
        !asks_for_fence(chain.hdr) ==> {
            let measured = chain.after(ChainEvent::<E>::Room(room)).1;
            &&& measured matches ChainAction::Encode { fence }
            &&& fence.flags == 0 && fence.fence_id == 0 && fence.ctx_id == 0 && fence.ring_idx == 0
            &&& chain.after(ChainEvent::<E>::Encoded(Ok(len))).1 is AddUsed
        },
{
}

/// The buffer that is given back, or that waits for its fence, is the one the command came in, with
/// the length of the response that was written, and nothing if there was no room for one. A response
/// that was written is given back as soon as nothing has to be waited for.
pub proof fn lemma_buffer_of_the_command_is_given_back<E>(chain: GpuChainView, event: ChainEvent<E>)
    ensures
        ({
            let (then, action) = chain.after(event);
            &&& then.head == chain.head
            &&& !(event is Decoded) ==> then.hdr == chain.hdr
            &&& then.response_len == match event {
                ChainEvent::Encoded(Ok(len)) => len,
                _ => chain.response_len,
            }
            &&& action matches ChainAction::ProcessFence { head, len, .. } ==> {
                head == chain.head && event == ChainEvent::<E>::Encoded(Ok(len))
            }
            &&& action matches ChainAction::AddUsed { head, len } ==> {
                &&& head == chain.head
                &&& {
                    ||| event == ChainEvent::<E>::Room(0) && len == 0
                    ||| event == ChainEvent::<E>::Encoded(Ok(len))
                    ||| event == ChainEvent::<E>::FenceProcessed(true) && len == chain.response_len
                }
            }
            &&& event == ChainEvent::<E>::Room(0) ==> action is AddUsed
            &&& event == ChainEvent::<E>::FenceProcessed(true) ==> action is AddUsed
            &&& event == ChainEvent::<E>::FenceProcessed(false) ==> action == ChainAction::<
                E,
            >::Finish(Ok(false))
            &&& event matches ChainEvent::UsedAdded(Ok(_)) ==> action == ChainAction::<E>::Finish(
                Ok(true),
            )
            &&& event matches ChainEvent::UsedAdded(Err(e)) ==> action == ChainAction::Finish(
                Err(GpuError::QueueAddUsed(e)),
            )
            &&& event matches ChainEvent::Encoded(Err(e)) ==> action == ChainAction::Finish(
                Err(GpuError::GpuResponseEncode(e)),
            )
        }),
{
}

/// A GPU that has a display and is given two queues can be activated. Its worker is handed the first
/// two queues, in that order, and the display and the set-up. Everything else stays as it was.
pub proof fn lemma_activation_hands_over<S, Q>(
    before: GpuDevice<S, Q>,
    queues: Map<usize, Q>,
    after: GpuDevice<S, Q>,
    result: Result<(), DeviceError>,
)
    requires
        <GpuDevice<S, Q> as VirtioDevice<Q>>::activated(before, queues, after, result),
        queues.dom().contains(0),
        queues.dom().contains(1),
        before@.gpu_backend is Some,
    ensures
        <GpuDevice<S, Q> as VirtioDevice<Q>>::can_activate(&before, queues),
        result is Ok,
        after@.worker is Some,
        after@.worker->0.control_queue == queues[0],
        after@.worker->0.cursor_queue == queues[1],
        after@.worker->0.gpu_backend == before@.gpu_backend->0,
        after@.worker->0.gpu_config == before@.gpu_config,
        after@.worker_active,
        after@.gpu_backend is None,
        after@.virtio_cfg == before@.virtio_cfg,
        after@.acked_features == before@.acked_features,
        after@.gpu_config == before@.gpu_config,
{
}

/// What stands in the way of an activation is told apart, a missing queue before a missing display,
/// and leaves the device as it was.
pub proof fn lemma_activation_is_refused<S, Q>(
    before: GpuDevice<S, Q>,
    queues: Map<usize, Q>,
    after: GpuDevice<S, Q>,
    result: Result<(), DeviceError>,
)
    requires
        <GpuDevice<S, Q> as VirtioDevice<Q>>::activated(before, queues, after, result),
        !queues.dom().contains(0) || !queues.dom().contains(1) || before@.gpu_backend is None,
    ensures
        after@ == before@,
        result == Err::<(), DeviceError>(
            if queues.dom().contains(0) && queues.dom().contains(1) {
                DeviceError::MissingGpuBackend
            } else {
                DeviceError::MissingControlQueue
            },
        ),
{
}

/// The configuration space cannot be written, and a driver that tries changes nothing.
pub proof fn lemma_config_is_not_written<S, Q>(
    before: GpuDevice<S, Q>,
    offset: usize,
    data: Seq<u8>,
    after: GpuDevice<S, Q>,
    result: Result<(), DeviceError>,
)
    requires
        <GpuDevice<S, Q> as VirtioDevice<Q>>::config_written(before, offset, data, after, result),
    ensures
        result is Err,
        after@ == before@,
{
}

/// Stopping a GPU takes its worker from it, and nothing else.
pub proof fn lemma_stopped_gpu<S, Q>(before: GpuDevice<S, Q>, after: GpuDevice<S, Q>)
    requires
        <GpuDevice<S, Q> as VirtioDevice<Q>>::stopped(before, after),
    ensures
        after@.worker is None,
        !after@.worker_active,
        after@.virtio_cfg == before@.virtio_cfg,
        after@.acked_features == before@.acked_features,
        after@.gpu_backend == before@.gpu_backend,
        after@.gpu_config == before@.gpu_config,
{
}

/// A driver that acknowledges features gets exactly those of them that the device offers, and
/// nothing else of the device changes.
pub proof fn lemma_acknowledged_features<S, Q>(
    before: GpuDevice<S, Q>,
    features: u64,
    after: GpuDevice<S, Q>,
    bit: u64,
)
    requires
        <GpuDevice<S, Q> as VirtioDevice<Q>>::features_acked(before, features, after),
    ensures
        after@.acked_features & bit == features & 0x0101_3100_001b & bit,
        after@.virtio_cfg == before@.virtio_cfg,
        after@.worker == before@.worker,
        after@.worker_active == before@.worker_active,
        after@.gpu_backend == before@.gpu_backend,
        after@.gpu_config == before@.gpu_config,
{
}

/// The configuration space starts with the events, then come the number of displays and the number of
/// ways to talk to the renderer, each in four bytes, least significant byte first.
pub proof fn lemma_config_layout(config: VirtioGpuConfig)
    ensures
        config.spec_bytes().len() == 16,
        crate::virtio::le_bytes::le_value(config.spec_bytes().subrange(0, 4))
            == config.events_read,
        crate::virtio::le_bytes::le_value(config.spec_bytes().subrange(4, 8))
            == config.events_clear,
        crate::virtio::le_bytes::le_value(config.spec_bytes().subrange(8, 12))
            == config.num_scanouts,
        crate::virtio::le_bytes::le_value(config.spec_bytes().subrange(12, 16))
            == config.num_capsets,
{
    let first = crate::virtio::le_bytes::le_bytes(config.events_read as nat, 4);
    let second = crate::virtio::le_bytes::le_bytes(config.events_clear as nat, 4);
    let third = crate::virtio::le_bytes::le_bytes(config.num_scanouts as nat, 4);
    let fourth = crate::virtio::le_bytes::le_bytes(config.num_capsets as nat, 4);
    crate::virtio::le_bytes::lemma_le_bytes_len(config.events_read as nat, 4);
    crate::virtio::le_bytes::lemma_le_bytes_len(config.events_clear as nat, 4);
    crate::virtio::le_bytes::lemma_le_bytes_len(config.num_scanouts as nat, 4);
    crate::virtio::le_bytes::lemma_le_bytes_len(config.num_capsets as nat, 4);
    assert(config.spec_bytes().subrange(0, 4) =~= first);
    assert(config.spec_bytes().subrange(4, 8) =~= second);
    assert(config.spec_bytes().subrange(8, 12) =~= third);
    assert(config.spec_bytes().subrange(12, 16) =~= fourth);
    assert(vstd::arithmetic::power::pow(256, 4) == 0x1_0000_0000) by {
        reveal_with_fuel(vstd::arithmetic::power::pow, 5);
    }
    crate::virtio::le_bytes::lemma_le_round_trip(config.events_read as nat, 4);
    crate::virtio::le_bytes::lemma_le_round_trip(config.events_clear as nat, 4);
    crate::virtio::le_bytes::lemma_le_round_trip(config.num_scanouts as nat, 4);
    crate::virtio::le_bytes::lemma_le_round_trip(config.num_capsets as nat, 4);
}

/// A read of the configuration space gives the bytes from the offset on, if it asks for all of them,
/// and is refused otherwise.
pub proof fn lemma_config_reads<S, Q>(gpu: GpuDevice<S, Q>, offset: usize, data: Seq<u8>, i: int)
    requires
        offset <= 16,
        0 <= i < data.len(),
    ensures
        <GpuDevice<S, Q> as VirtioDevice<Q>>::can_read_config(&gpu, offset, data.len()),
        ({
            let (read, result) = <GpuDevice<S, Q> as VirtioDevice<Q>>::config_read(
                &gpu,
                offset,
                data,
            );
            &&& read.len() == data.len()
            &&& if offset + data.len() == 16 {
                result is Ok && read[i] == gpu@.virtio_cfg.spec_bytes()[offset + i]
            } else {
                result == Err::<(), DeviceError>(DeviceError::InvalidLength) && read == data
            }
        }),
{
    lemma_config_layout(gpu@.virtio_cfg);
}

/// A new GPU has sixteen displays, as many ways to talk to the renderer as it was set up with, and two
/// queues of the same size. It is connected to no display and has no worker.
pub proof fn lemma_new_gpu<S, Q>(
    config: GpuConfig,
    gpu: GpuDevice<S, Q>,
)
    requires
        call_ensures(GpuDevice::<S, Q>::new, (config,), gpu),
    ensures
        gpu@.virtio_cfg.events_read == 0,
        gpu@.virtio_cfg.events_clear == 0,
        gpu@.virtio_cfg.num_scanouts == 16,
        gpu@.virtio_cfg.num_capsets == ways(config.spec_capsets()),
        gpu@.acked_features == 0,
        gpu@.worker is None,
        !gpu@.worker_active,
        gpu@.gpu_backend is None,
        gpu@.gpu_config == config,
        <GpuDevice<S, Q> as VirtioDevice<Q>>::spec_queues(&gpu).len() == 2,
        forall|i: int|
            0 <= i < 2 ==> (#[trigger] <GpuDevice<S, Q> as VirtioDevice<Q>>::spec_queues(
                &gpu,
            )[i]) == crate::virtio::queue_args::QueueArgs::of_size(256),
{
}

/// The number of ways in a set.
pub open spec fn ways(capset: GpuCapset) -> int {
    (if capset.virgl {
        1int
    } else {
        0
    }) + (if capset.virgl2 {
        1int
    } else {
        0
    }) + (if capset.gfxstream_vulkan {
        1int
    } else {
        0
    }) + (if capset.gfxstream_gles {
        1int
    } else {
        0
    })
}

/// A display that the front-end connects is the one that the worker is handed, and a display that is
/// connected later replaces one that was connected before.
pub proof fn lemma_connected_display<S, Q>(
    before: GpuDevice<S, Q>,
    socket: S,
    after: GpuDevice<S, Q>,
    queues: Map<usize, Q>,
)
    requires
        <crate::gpu::vhost::VhostUserGpuBackend<
            S,
            Q,
        > as crate::vhost_user::backend::VhostUserDeviceImplementer>::display_connected(
            before,
            socket,
            after,
        ),
        queues.dom().contains(0),
        queues.dom().contains(1),
    ensures
        after@.activation(queues) is Ok,
        after@.activated(queues).worker->0.gpu_backend == socket,
        after@.worker == before@.worker,
        after@.worker_active == before@.worker_active,
        after@.virtio_cfg == before@.virtio_cfg,
        after@.acked_features == before@.acked_features,
        after@.gpu_config == before@.gpu_config,
{
}

/// The back-end offers several queues, the configuration space, replies, and descriptors sent to the
/// front-end, and no other protocol features.
pub proof fn lemma_offered_protocol_features()
    ensures
        crate::gpu::vhost::PROTOCOL_FEATURES == 0x1u64 | 0x8u64 | 0x200u64 | 0x400u64,
{
    assert(0x1u64 | 0x8u64 | 0x200u64 | 0x400u64 == 0x609u64) by (bit_vector);
}

/// A back-end ends well exactly if every stage went well, and otherwise tells which stage did not and
/// why.
pub proof fn lemma_failed_stage_is_told<E>(
    stage: crate::gpu::vhost::StartStage<E>,
    result: Result<(), crate::gpu::vhost::StartError<E>>,
)
    requires
        call_ensures(crate::gpu::vhost::start_backend::<E>, (stage,), result),
    ensures
        stage matches crate::gpu::vhost::StartStage::BackendCreated(made) ==> (result is Ok
            <==> made is Ok) && (made matches Err(e) ==> result == Err::<
            (),
            crate::gpu::vhost::StartError<E>,
        >(crate::gpu::vhost::StartError::CouldNotCreateBackend(e))),
        stage matches crate::gpu::vhost::StartStage::DaemonCreated(made) ==> (result is Ok
            <==> made is Ok) && (made matches Err(e) ==> result == Err::<
            (),
            crate::gpu::vhost::StartError<E>,
        >(crate::gpu::vhost::StartError::CouldNotCreateDaemon(e))),
        stage matches crate::gpu::vhost::StartStage::Served(made) ==> (result is Ok <==> made is Ok)
            && (made matches Err(e) ==> result == Err::<(), crate::gpu::vhost::StartError<E>>(
            crate::gpu::vhost::StartError::ServeFailed(e),
        )),
{
}

/// Which mode a text chooses: a text that is the name of a mode, or the other spelling of the first,
/// letter by letter, and no other text.
pub proof fn lemma_mode_by_name(input: Seq<char>)
    ensures
        GpuMode::named(input, false) == Some(GpuMode::VirglRenderer) <==> input
            == "virglrenderer"@ || input == "virgl-renderer"@,
        GpuMode::named(input, false) == Some(GpuMode::Gfxstream) <==> input == "gfxstream"@,
{
    reveal_strlit("virglrenderer");
    reveal_strlit("virgl-renderer");
    reveal_strlit("gfxstream");
    if crate::gpu::config::same_text(input, "virglrenderer"@, false) {
        assert(input =~= "virglrenderer"@);
    }
    if crate::gpu::config::same_text(input, "virgl-renderer"@, false) {
        assert(input =~= "virgl-renderer"@);
    }
    if crate::gpu::config::same_text(input, "gfxstream"@, false) {
        assert(input =~= "gfxstream"@);
    }
}

/// Whether two characters are the same letter of ASCII, one in upper and one in lower case.
pub open spec fn other_case(a: char, b: char) -> bool {
    ||| 'A' <= a <= 'Z' && b as int == a as int + 32
    ||| 'A' <= b <= 'Z' && a as int == b as int + 32
}

/// A text that differs from another only in the case of letters chooses the same mode, if the case is
/// to be ignored. Whatever a text chooses when the case counts, it chooses when the case is ignored.
pub proof fn lemma_mode_ignores_case(input: Seq<char>, other: Seq<char>)
    requires
        input.len() == other.len(),
        forall|i: int|
            0 <= i < input.len() ==> #[trigger] input[i] == other[i] || other_case(
                input[i],
                other[i],
            ),
    ensures
        GpuMode::named(input, true) == GpuMode::named(other, true),
        GpuMode::named(input, false) is Some ==> GpuMode::named(input, true) == GpuMode::named(
            input,
            false,
        ),
{
    lemma_same_text_ignores_case(input, other, "virglrenderer"@);
    lemma_same_text_ignores_case(input, other, "virgl-renderer"@);
    lemma_same_text_ignores_case(input, other, "gfxstream"@);
    reveal_strlit("virglrenderer");
    reveal_strlit("virgl-renderer");
    reveal_strlit("gfxstream");
    lemma_mode_by_name(input);
}

proof fn lemma_same_text_ignores_case(input: Seq<char>, other: Seq<char>, name: Seq<char>)
    requires
        input.len() == other.len(),
        forall|i: int|
            0 <= i < input.len() ==> #[trigger] input[i] == other[i] || other_case(
                input[i],
                other[i],
            ),
    ensures
        crate::gpu::config::same_text(input, name, true) == crate::gpu::config::same_text(
            other,
            name,
            true,
        ),
{
    if crate::gpu::config::same_text(input, name, true) {
        assert forall|i: int| 0 <= i < other.len() implies crate::gpu::config::same_char(
            #[trigger] other[i],
            name[i],
            true,
        ) by {
            assert(crate::gpu::config::same_char(input[i], name[i], true));
        }
    }
    if crate::gpu::config::same_text(other, name, true) {
        assert forall|i: int| 0 <= i < input.len() implies crate::gpu::config::same_char(
            #[trigger] input[i],
            name[i],
            true,
        ) by {
            assert(crate::gpu::config::same_char(other[i], name[i], true));
        }
    }
}

/// What each mode supports: virglrenderer both versions of OpenGL through it, gfxstream Vulkan and
/// OpenGL ES through it, and neither what the other does.
pub proof fn lemma_supported_ways(mode: GpuMode)
    ensures
        GpuCapset::supported_by(mode).virgl == (mode == GpuMode::VirglRenderer),
        GpuCapset::supported_by(mode).virgl2 == (mode == GpuMode::VirglRenderer),
        GpuCapset::supported_by(mode).gfxstream_vulkan == (mode == GpuMode::Gfxstream),
        GpuCapset::supported_by(mode).gfxstream_gles == (mode == GpuMode::Gfxstream),
{
}

/// When a device cannot be set up: if it is to use something that the mode does not support, which is
/// the one thing that is told, or OpenGL ES through gfxstream while OpenGL ES is switched off.
pub proof fn lemma_set_up_is_refused(
    mode: GpuMode,
    capset: Option<GpuCapset>,
    flags: GpuFlags,
    result: Result<GpuConfig, GpuConfigError>,
)
    requires
        call_ensures(GpuConfig::new, (mode, capset, flags), result),
    ensures
        ({
            let virgl_mode = mode == GpuMode::VirglRenderer;
            let (virgl, virgl2, vulkan, gles) = match capset {
                Some(c) => (c.virgl, c.virgl2, c.gfxstream_vulkan, c.gfxstream_gles),
                None => (virgl_mode, virgl_mode, !virgl_mode, !virgl_mode),
            };
            let foreign = if virgl_mode {
                vulkan || gles
            } else {
                virgl || virgl2
            };
            &&& result is Err <==> foreign || gles && !flags.use_gles
            &&& result matches Ok(config) ==> {
                &&& config.spec_gpu_mode() == mode
                &&& config.spec_flags() == flags
                &&& config.spec_capsets().virgl == virgl
                &&& config.spec_capsets().virgl2 == virgl2
                &&& config.spec_capsets().gfxstream_vulkan == vulkan
                &&& config.spec_capsets().gfxstream_gles == gles
            }
            &&& result matches Err(GpuConfigError::CapsetUnsuportedByMode(with, what)) ==> {
                &&& with == mode
                &&& foreign
                &&& ways(what) == 1
                &&& what.virgl ==> virgl && !virgl_mode
                &&& what.virgl2 ==> virgl2 && !virgl && !virgl_mode
                &&& what.gfxstream_vulkan ==> vulkan && virgl_mode
                &&& what.gfxstream_gles ==> gles && !vulkan && virgl_mode
            }
            &&& result matches Err(GpuConfigError::GlesRequiredByGfxstream) ==> {
                gles && !flags.use_gles && !foreign
            }
        }),
{
}

/// Two sets together have what either of them has.
pub proof fn lemma_union_has_both(a: GpuCapset, b: GpuCapset)
    ensures
        a.union(b).virgl <==> a.virgl || b.virgl,
        a.union(b).virgl2 <==> a.virgl2 || b.virgl2,
        a.union(b).gfxstream_vulkan <==> a.gfxstream_vulkan || b.gfxstream_vulkan,
        a.union(b).gfxstream_gles <==> a.gfxstream_gles || b.gfxstream_gles,
        vstd::std_specs::ops::BitOrSpec::bitor_spec(a, b) == a.union(b),
{
}

/// A set is written with the name of each way that is in it, once, and of no other, and its number is
/// how many there are.
pub proof fn lemma_names_of_ways(capset: GpuCapset, num: u32)
    requires
        call_ensures(GpuCapset::num_capsets, (&capset,), num),
    ensures
        num == ways(capset),
        capset.spec_names().len() == ways(capset),
        capset.spec_names().contains("virgl"@) <==> capset.virgl,
        capset.spec_names().contains("virgl2"@) <==> capset.virgl2,
        capset.spec_names().contains("gfxstream-vulkan"@) <==> capset.gfxstream_vulkan,
        capset.spec_names().contains("gfxstream-gles"@) <==> capset.gfxstream_gles,
{
    reveal_strlit("virgl");
    reveal_strlit("virgl2");
    reveal_strlit("gfxstream-vulkan");
    reveal_strlit("gfxstream-gles");
    let names = capset.spec_names();
    let one = crate::gpu::config::text_if(capset.virgl, "virgl"@);
    let two = crate::gpu::config::text_if(capset.virgl2, "virgl2"@);
    let three = crate::gpu::config::text_if(capset.gfxstream_vulkan, "gfxstream-vulkan"@);
    if capset.virgl {
        assert(names[0] == "virgl"@);
    }
    if capset.virgl2 {
        assert(names[one.len() as int] == "virgl2"@);
    }
    if capset.gfxstream_vulkan {
        assert(names[(one.len() + two.len()) as int] == "gfxstream-vulkan"@);
    }
    if capset.gfxstream_gles {
        assert(names[(one.len() + two.len() + three.len()) as int] == "gfxstream-gles"@);
    }
    assert("virgl"@.len() == 5);
    assert("virgl2"@.len() == 6);
    assert("gfxstream-vulkan"@.len() == 16);
    assert("gfxstream-gles"@.len() == 14);
}

/// Unless something else is asked for, EGL and OpenGL ES are used, and rendering needs no surface.
pub proof fn lemma_default_switches(flags: GpuFlags)
    requires
        call_ensures(GpuFlags::new_default, (), flags),
    ensures
        flags == GpuFlags::spec_default(),
        flags.use_egl && flags.use_gles && flags.use_surfaceless && !flags.use_glx,
{
}

} // verus!
