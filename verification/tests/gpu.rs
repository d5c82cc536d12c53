use std::collections::BTreeMap;
use virtio_devices::events::token::EventToken;
use virtio_devices::gpu::config::{GpuConfig, GpuFlags, GpuMode};
use virtio_devices::gpu::device::{GpuDevice, GpuError, VirtioGpuConfig};
use virtio_devices::gpu::protocol::{
    process_gpu_command, Box3D, Create2d, Create3d, CtrlHdr, CursorPos, GpuCall, GpuCommand,
    GpuResponse, MemoryPiece, Rect, ResourceCreate3D, Transfer3D, TransferHost3d, TransferToHost2d,
    UpdateCursor,
};
use virtio_devices::gpu::worker::{
    ChainAction, ChainEvent, Fence, GpuChain, GpuWorker, PassAction, PassEvent, QueueAction,
    QueueEvent, QueueHandler, QueuePass, VirtioGpuRing, WorkerStep, WorkerToken,
};
use virtio_devices::virtio::mock::MockDeviceQueue;
use vhost::vhost_user::Listener;
use virtio_devices::gpu::vhost::{start_backend, StartError, StartStage, VhostUserGpuBackend};
use virtio_devices::virtio::device::{DeviceError, VirtioDevice};

type Device = GpuDevice<u8, MockDeviceQueue>;

fn device() -> Device {
    let config = GpuConfig::new(GpuMode::VirglRenderer, None, GpuFlags::default()).unwrap();
    GpuDevice::new(config)
}

fn hdr(flags: u32) -> CtrlHdr {
    CtrlHdr { type_: 0, flags, fence_id: 123, ctx_id: 1, ring_idx: 2 }
}

const RECT: Rect = Rect { x: 0, y: 0, width: 0, height: 0 };

const CURSOR: UpdateCursor = UpdateCursor {
    pos: CursorPos { scanout_id: 0, x: 0, y: 0 },
    resource_id: 0,
    hot_x: 0,
    hot_y: 0,
};

const TRANSFER: TransferHost3d = TransferHost3d {
    box_: Box3D { x: 1, y: 2, z: 3, w: 4, h: 5, d: 6 },
    offset: 7,
    resource_id: 8,
    level: 9,
    stride: 10,
    layer_stride: 11,
};

const MOVED: Transfer3D = Transfer3D {
    x: 1,
    y: 2,
    z: 3,
    w: 4,
    h: 5,
    d: 6,
    level: 9,
    stride: 10,
    layer_stride: 11,
    offset: 7,
};

/// Executes a command whose call the renderer answers with `answer`, and returns the call and the
/// response of the device.
fn test_cmd(
    cmd: GpuCommand,
    answer: Result<GpuResponse, GpuResponse>,
) -> (Option<GpuCall>, GpuResponse) {
    let mut chain = GpuChain::new(4);
    let event = ChainEvent::Decoded { hdr: hdr(0), cmd, valid: vec![] };
    let call = match chain.process_queue_chain::<u8>(event) {
        ChainAction::Call(call) => call,
        _ => unreachable!(),
    };
    assert!(matches!(
        chain.process_queue_chain::<u8>(ChainEvent::Called(answer)),
        ChainAction::Measure
    ));
    let response = match chain.response() {
        GpuResponse::OkNoData => GpuResponse::OkNoData,
        GpuResponse::OkDisplayInfo(info) => GpuResponse::OkDisplayInfo(info.clone()),
        GpuResponse::OkEdid { blob } => GpuResponse::OkEdid { blob: blob.clone() },
        GpuResponse::OkCapsetInfo { capset_id, version, size } => GpuResponse::OkCapsetInfo {
            capset_id: *capset_id,
            version: *version,
            size: *size,
        },
        _ => GpuResponse::ErrUnspec,
    };
    (Some(call), response)
}

fn no_data(cmd: GpuCommand) -> GpuCall {
    let (call, response) = test_cmd(cmd, Ok(GpuResponse::OkNoData));
    assert!(matches!(response, GpuResponse::OkNoData));
    call.unwrap()
}

#[test]
fn test_process_gpu_command() {
    let answer = Ok(GpuResponse::OkDisplayInfo(vec![(1280, 720, true)]));
    let (call, response) = test_cmd(GpuCommand::GetDisplayInfo, answer);
    assert!(matches!(call, Some(GpuCall::DisplayInfo)));
    assert!(matches!(response, GpuResponse::OkDisplayInfo(info) if info == [(1280, 720, true)]));

    let answer = Ok(GpuResponse::OkEdid { blob: vec![0xff; 512] });
    let (call, response) = test_cmd(GpuCommand::GetEdid(0), answer);
    assert!(matches!(call, Some(GpuCall::GetEdid { scanout_id: 0 })));
    assert!(matches!(response, GpuResponse::OkEdid { blob } if blob == vec![0xff; 512]));

    let create = Create2d { resource_id: 1, format: 2, width: 3, height: 4 };
    match no_data(GpuCommand::ResourceCreate2d(create)) {
        GpuCall::ResourceCreate3d { resource_id: 1, resource } => assert_eq!(
            resource,
            ResourceCreate3D {
                target: 2,
                format: 2,
                bind: 2,
                width: 3,
                height: 4,
                depth: 1,
                array_size: 1,
                last_level: 0,
                nr_samples: 0,
                flags: 0,
            }
        ),
        _ => unreachable!(),
    }

    assert!(matches!(
        no_data(GpuCommand::ResourceUnref(5)),
        GpuCall::UnrefResource { resource_id: 5 }
    ));
    assert!(matches!(
        no_data(GpuCommand::SetScanout { r: RECT, scanout_id: 1, resource_id: 2 }),
        GpuCall::SetScanout { scanout_id: 1, resource_id: 2, rect: RECT }
    ));
    assert!(matches!(
        no_data(GpuCommand::ResourceFlush { r: RECT, resource_id: 2 }),
        GpuCall::FlushResource { resource_id: 2, rect: RECT }
    ));

    let transfer = TransferToHost2d {
        r: Rect { x: 1, y: 2, width: 3, height: 4 },
        offset: 5,
        resource_id: 6,
    };
    match no_data(GpuCommand::TransferToHost2d(transfer)) {
        GpuCall::TransferWrite { ctx_id: 0, resource_id: 6, transfer } => assert_eq!(
            transfer,
            Transfer3D {
                x: 1,
                y: 2,
                z: 0,
                w: 3,
                h: 4,
                d: 1,
                level: 0,
                stride: 0,
                layer_stride: 0,
                offset: 5,
            }
        ),
        _ => unreachable!(),
    }

    assert!(matches!(
        no_data(GpuCommand::ResourceAttachBacking { resource_id: 1, iovecs: vec![] }),
        GpuCall::AttachBacking { resource_id: 1, iovecs } if iovecs.is_empty()
    ));
    assert!(matches!(
        no_data(GpuCommand::ResourceDetachBacking(1)),
        GpuCall::DetachBacking { resource_id: 1 }
    ));

    let answer = Ok(GpuResponse::OkCapsetInfo { capset_id: 1, version: 2, size: 32 });
    let (call, response) = test_cmd(GpuCommand::GetCapsetInfo(0), answer);
    assert!(matches!(call, Some(GpuCall::GetCapsetInfo { index: 0 })));
    assert!(matches!(
        response,
        GpuResponse::OkCapsetInfo { capset_id: 1, version: 2, size: 32 }
    ));
    assert!(matches!(
        no_data(GpuCommand::GetCapset { capset_id: 1, capset_version: 2 }),
        GpuCall::GetCapset { capset_id: 1, version: 2 }
    ));

    let create = GpuCommand::CtxCreate { context_init: 3, debug_name: "name".to_string() };
    assert!(matches!(
        no_data(create),
        GpuCall::CreateContext { ctx_id: 1, context_init: 3, context_name: Some(name) }
            if name == "name"
    ));
    assert!(matches!(
        no_data(GpuCommand::CtxDestroy),
        GpuCall::DestroyContext { ctx_id: 1 }
    ));
    assert!(matches!(
        no_data(GpuCommand::CtxAttachResource(4)),
        GpuCall::ContextAttachResource { ctx_id: 1, resource_id: 4 }
    ));
    assert!(matches!(
        no_data(GpuCommand::CtxDetachResource(4)),
        GpuCall::ContextDetachResource { ctx_id: 1, resource_id: 4 }
    ));

    let resource = ResourceCreate3D {
        target: 1,
        format: 2,
        bind: 3,
        width: 4,
        height: 5,
        depth: 6,
        array_size: 7,
        last_level: 8,
        nr_samples: 9,
        flags: 10,
    };
    match no_data(GpuCommand::ResourceCreate3d(Create3d { resource_id: 11, resource })) {
        GpuCall::ResourceCreate3d { resource_id: 11, resource: made } => {
            assert_eq!(made, resource)
        }
        _ => unreachable!(),
    }
    match no_data(GpuCommand::TransferToHost3d(TRANSFER)) {
        GpuCall::TransferWrite { ctx_id: 1, resource_id: 8, transfer } => {
            assert_eq!(transfer, MOVED)
        }
        _ => unreachable!(),
    }
    match no_data(GpuCommand::TransferFromHost3d(TRANSFER)) {
        GpuCall::TransferRead { ctx_id: 1, resource_id: 8, transfer } => {
            assert_eq!(transfer, MOVED)
        }
        _ => unreachable!(),
    }

    let submit = GpuCommand::CmdSubmit3d { cmd_data: vec![0xff; 512], fence_ids: vec![] };
    assert!(matches!(
        no_data(submit),
        GpuCall::SubmitCommand { ctx_id: 1, commands, fence_ids }
            if commands == vec![0xff; 512] && fence_ids.is_empty()
    ));
    let cursor = UpdateCursor { resource_id: 3, hot_x: 4, hot_y: 5, ..CURSOR };
    match no_data(GpuCommand::UpdateCursor(cursor)) {
        GpuCall::UpdateCursor { resource_id: 3, cursor_pos, hot_x: 4, hot_y: 5 } => {
            assert_eq!(cursor_pos, CURSOR.pos)
        }
        _ => unreachable!(),
    }
    match no_data(GpuCommand::MoveCursor(CURSOR)) {
        GpuCall::MoveCursor { resource_id: 0, cursor } => assert_eq!(cursor, CURSOR.pos),
        _ => unreachable!(),
    }
    match no_data(GpuCommand::MoveCursor(CURSOR)) {
        GpuCall::MoveCursor { resource_id: 0, cursor } => assert_eq!(cursor, CURSOR.pos),
        _ => unreachable!(),
    }
}

#[test]
fn the_first_context_is_forced() {
    let (first, call) = process_gpu_command(hdr(0), GpuCommand::GetDisplayInfo, &[]);
    assert!(matches!(first, GpuCall::ForceCtx0));
    assert!(matches!(call, Ok(GpuCall::DisplayInfo)));
}

#[test]
fn memory_outside_the_guest_is_rejected() {
    let iovecs = vec![MemoryPiece { addr: 0, len: 16 }, MemoryPiece { addr: 1 << 40, len: 16 }];
    let cmd = GpuCommand::ResourceAttachBacking { resource_id: 1, iovecs: iovecs.clone() };
    let (_, call) = process_gpu_command(hdr(0), cmd, &[true, false]);
    assert!(matches!(call, Err(GpuResponse::ErrInvalidParameter)));
    let cmd = GpuCommand::ResourceAttachBacking { resource_id: 1, iovecs: iovecs.clone() };
    let (_, call) = process_gpu_command(hdr(0), cmd, &[true, true]);
    assert!(matches!(
        call,
        Ok(GpuCall::AttachBacking { resource_id: 1, iovecs: attached }) if attached == iovecs
    ));

    let mut chain = GpuChain::new(4);
    let cmd = GpuCommand::ResourceAttachBacking { resource_id: 1, iovecs };
    let event = ChainEvent::Decoded { hdr: hdr(0), cmd, valid: vec![false, true] };
    assert!(matches!(
        chain.process_queue_chain::<u8>(event),
        ChainAction::RejectAndMeasure
    ));
    assert!(matches!(chain.response(), GpuResponse::ErrInvalidParameter));
}

#[test]
fn commands_that_are_not_implemented() {
    for cmd in [
        GpuCommand::ResourceAssignUuid,
        GpuCommand::ResourceCreateBlob,
        GpuCommand::SetScanoutBlob,
        GpuCommand::ResourceMapBlob,
        GpuCommand::ResourceUnmapBlob,
    ] {
        assert!(!cmd.is_implemented());
    }
    assert!(GpuCommand::GetDisplayInfo.is_implemented());
    assert!(GpuCommand::CtxDestroy.is_implemented());
}

fn decoded(flags: u32) -> GpuChain {
    let mut chain = GpuChain::new(4);
    let cmd = GpuCommand::TransferToHost3d(TRANSFER);
    let event = ChainEvent::Decoded { hdr: hdr(flags), cmd, valid: vec![] };
    assert!(matches!(chain.process_queue_chain::<u8>(event), ChainAction::Call(_)));
    chain.process_queue_chain::<u8>(ChainEvent::Called(Ok(GpuResponse::OkNoData)));
    chain
}

#[test]
fn a_command_without_a_fence() {
    let mut chain = decoded(0);
    let none = Fence { flags: 0, fence_id: 0, ctx_id: 0, ring_idx: 0 };
    match chain.process_queue_chain::<u8>(ChainEvent::Room(24)) {
        ChainAction::Encode { fence } => assert_eq!(fence, none),
        _ => unreachable!(),
    }
    assert!(matches!(
        chain.process_queue_chain::<u8>(ChainEvent::Encoded(Ok(24))),
        ChainAction::AddUsed { head: 4, len: 24 }
    ));
    assert!(matches!(
        chain.process_queue_chain::<u8>(ChainEvent::UsedAdded(Ok(()))),
        ChainAction::Finish(Ok(true))
    ));
}

#[test]
fn a_command_with_a_fence_that_is_ready() {
    let mut chain = decoded(1);
    let asked = Fence { flags: 1, fence_id: 123, ctx_id: 1, ring_idx: 2 };
    match chain.process_queue_chain::<u8>(ChainEvent::Room(24)) {
        ChainAction::CreateFence(fence) => assert_eq!(fence, asked),
        _ => unreachable!(),
    }
    match chain.process_queue_chain::<u8>(ChainEvent::FenceCreated(Ok(()))) {
        ChainAction::Encode { fence } => assert_eq!(fence, asked),
        _ => unreachable!(),
    }
    assert!(matches!(chain.response(), GpuResponse::OkNoData));
    assert!(matches!(
        chain.process_queue_chain::<u8>(ChainEvent::Encoded(Ok(24))),
        ChainAction::ProcessFence {
            ring: VirtioGpuRing::Global,
            fence_id: 123,
            head: 4,
            len: 24
        }
    ));
    assert!(matches!(
        chain.process_queue_chain::<u8>(ChainEvent::FenceProcessed(true)),
        ChainAction::AddUsed { head: 4, len: 24 }
    ));
}

#[test]
fn a_command_with_a_fence_that_is_not_ready() {
    let mut chain = decoded(3);
    chain.process_queue_chain::<u8>(ChainEvent::Room(24));
    chain.process_queue_chain::<u8>(ChainEvent::FenceCreated(Ok(())));
    assert!(matches!(
        chain.process_queue_chain::<u8>(ChainEvent::Encoded(Ok(24))),
        ChainAction::ProcessFence {
            ring: VirtioGpuRing::ContextSpecific { ctx_id: 1, ring_idx: 2 },
            fence_id: 123,
            head: 4,
            len: 24
        }
    ));
    assert!(matches!(
        chain.process_queue_chain::<u8>(ChainEvent::FenceProcessed(false)),
        ChainAction::Finish(Ok(false))
    ));
}

#[test]
fn a_fence_that_cannot_be_made() {
    let mut chain = decoded(1);
    chain.process_queue_chain::<u8>(ChainEvent::Room(24));
    chain.process_queue_chain::<u8>(ChainEvent::FenceCreated(Err(GpuResponse::ErrNumber(9))));
    assert!(matches!(chain.response(), GpuResponse::ErrNumber(9)));
}

#[test]
fn a_command_without_room_for_a_response() {
    let mut chain = decoded(1);
    assert!(matches!(
        chain.process_queue_chain::<u8>(ChainEvent::Room(0)),
        ChainAction::AddUsed { head: 4, len: 0 }
    ));
}

#[test]
fn a_command_that_cannot_be_read() {
    let mut chain = GpuChain::new(4);
    assert!(matches!(
        chain.process_queue_chain::<u8>(ChainEvent::NotDecoded),
        ChainAction::Measure
    ));
    assert!(matches!(chain.response(), GpuResponse::ErrUnspec));
    assert!(matches!(
        chain.process_queue_chain::<u8>(ChainEvent::Room(1)),
        ChainAction::Encode { fence: Fence { flags: 0, fence_id: 0, ctx_id: 0, ring_idx: 0 } }
    ));
    assert!(matches!(
        chain.process_queue_chain(ChainEvent::Encoded(Err(5u8))),
        ChainAction::Finish(Err(GpuError::GpuResponseEncode(5)))
    ));
    assert!(matches!(
        chain.process_queue_chain(ChainEvent::UsedAdded(Err(6u8))),
        ChainAction::Finish(Err(GpuError::QueueAddUsed(6)))
    ));
}

#[test]
fn a_failed_command() {
    let (_, response) = test_cmd(GpuCommand::CtxDestroy, Err(GpuResponse::ErrUnspec));
    assert!(matches!(response, GpuResponse::ErrUnspec));
}

#[test]
fn buffers_that_cannot_be_opened() {
    let mut pass = QueuePass::new();
    assert!(matches!(pass.reader_opened::<u8, u8>(Ok(5)), Ok(5)));
    assert!(matches!(pass.writer_opened::<u8, u8>(Ok(6)), Ok(6)));
    assert!(matches!(
        pass.reader_opened::<u8, u8>(Err(7)),
        Err(PassAction::Fail(GpuError::CreateReader(7)))
    ));
    assert!(matches!(
        pass.writer_opened::<u8, u8>(Err(8)),
        Err(PassAction::Fail(GpuError::CreateWriter(8)))
    ));
}

#[test]
fn commands_of_a_queue() {
    let mut pass = QueuePass::new();
    assert!(matches!(pass.process_queue::<u8>(PassEvent::Started), PassAction::Pop));
    assert!(matches!(
        pass.process_queue::<u8>(PassEvent::Popped(Ok(Some(7)))),
        PassAction::Execute { head: 7 }
    ));
    assert!(matches!(
        pass.process_queue::<u8>(PassEvent::Executed(Ok(false))),
        PassAction::Pop
    ));
    assert!(matches!(
        pass.process_queue::<u8>(PassEvent::Popped(Ok(None))),
        PassAction::Finish { signal_used_queue: false }
    ));
    pass.process_queue::<u8>(PassEvent::Executed(Ok(true)));
    pass.process_queue::<u8>(PassEvent::Executed(Ok(false)));
    assert!(matches!(
        pass.process_queue::<u8>(PassEvent::Popped(Ok(None))),
        PassAction::Finish { signal_used_queue: true }
    ));
    assert!(matches!(
        pass.process_queue(PassEvent::Popped(Err(GpuError::CreateReader(1u8)))),
        PassAction::Fail(GpuError::CreateReader(1))
    ));
    assert!(matches!(
        pass.process_queue(PassEvent::Executed(Err(GpuError::QueueAddUsed(2u8)))),
        PassAction::Fail(GpuError::QueueAddUsed(2))
    ));
}

#[test]
fn kicks_with_event_indices() {
    let mut handler = QueueHandler::new();
    assert!(matches!(
        handler.handle_queue_event::<u8>(QueueEvent::Started),
        QueueAction::ReadKick
    ));
    assert!(matches!(
        handler.handle_queue_event::<u8>(QueueEvent::KickRead(Ok(true))),
        QueueAction::Lock
    ));
    assert!(matches!(
        handler.handle_queue_event::<u8>(QueueEvent::Locked(Some(true))),
        QueueAction::DisableNotification
    ));
    assert!(matches!(
        handler.handle_queue_event::<u8>(QueueEvent::NotificationDisabled),
        QueueAction::Process
    ));
    assert!(matches!(
        handler.handle_queue_event::<u8>(QueueEvent::Processed(Ok(true))),
        QueueAction::EnableNotification { signal: true }
    ));
    // New commands are looked for until there are none.
    assert!(matches!(
        handler.handle_queue_event::<u8>(QueueEvent::NotificationEnabled(true)),
        QueueAction::DisableNotification
    ));
    assert!(matches!(
        handler.handle_queue_event::<u8>(QueueEvent::Processed(Ok(false))),
        QueueAction::EnableNotification { signal: false }
    ));
    assert!(matches!(
        handler.handle_queue_event::<u8>(QueueEvent::NotificationEnabled(false)),
        QueueAction::Finish { signal: false }
    ));
}

#[test]
fn kicks_without_event_indices() {
    let mut handler = QueueHandler::new();
    assert!(matches!(
        handler.handle_queue_event::<u8>(QueueEvent::KickRead(Ok(false))),
        QueueAction::Finish { signal: false }
    ));
    assert!(matches!(
        handler.handle_queue_event(QueueEvent::KickRead(Err(3u8))),
        QueueAction::Fail(3)
    ));
    assert!(matches!(
        handler.handle_queue_event::<u8>(QueueEvent::Locked(None)),
        QueueAction::Finish { signal: false }
    ));
    assert!(matches!(
        handler.handle_queue_event::<u8>(QueueEvent::Locked(Some(false))),
        QueueAction::Process
    ));
    assert!(matches!(
        handler.handle_queue_event::<u8>(QueueEvent::Processed(Ok(true))),
        QueueAction::Finish { signal: true }
    ));
    assert!(matches!(
        handler.handle_queue_event::<u8>(QueueEvent::Processed(Ok(false))),
        QueueAction::Finish { signal: false }
    ));
    assert!(matches!(
        handler.handle_queue_event(QueueEvent::Processed(Err(4u8))),
        QueueAction::Fail(4)
    ));
}

#[test]
fn events_of_the_gpu_worker() {
    let all = [
        WorkerToken::Quit,
        WorkerToken::ControlQ,
        WorkerToken::CursorQ,
        WorkerToken::Poll,
    ];
    let worker = GpuWorker::new("control", "cursor", true);
    assert_eq!(GpuWorker::new(0, 1, false).watched(), all[..3].to_vec());
    assert_eq!(worker.watched(), all.to_vec());
    assert_eq!(worker.run(all[0]), WorkerStep::Quit);
    assert_eq!(worker.run(all[1]), WorkerStep::HandleQueue { cursor: false });
    assert_eq!(worker.run(all[2]), WorkerStep::HandleQueue { cursor: true });
    assert_eq!(worker.run(all[3]), WorkerStep::PollRenderer);
    assert_eq!((*worker.queue(false), *worker.queue(true)), ("control", "cursor"));
    for token in worker.watched() {
        assert_eq!(WorkerToken::from_raw_token(token.as_raw_token()), token);
    }
}

#[test]
fn gpu_device_features_and_queues() {
    let mut device = device();
    assert_eq!(device.avail_features(), 0x0101_3100_001b);
    device.set_acked_features(u64::MAX);
    assert_eq!(device.acked_features(), 0x0101_3100_001b);
    device.set_acked_features(0x5);
    assert_eq!(device.acked_features(), 0x1);
    let sizes: Vec<u16> = device.queues().iter().map(|args| args.max_size()).collect();
    assert_eq!(sizes, vec![256, 256]);
    assert_eq!(device.write_config(0, &[0]), Err(DeviceError::ConfigWriteUnsupported));
    assert!(!device.reset());
}

#[test]
fn gpu_configuration() {
    let config = VirtioGpuConfig { events_read: 1, events_clear: 2, num_scanouts: 3, num_capsets: 4 };
    assert_eq!(config.to_bytes(), vec![1, 0, 0, 0, 2, 0, 0, 0, 3, 0, 0, 0, 4, 0, 0, 0]);
    let device = device();
    let mut data = [0u8; 8];
    assert_eq!(device.read_config(8, &mut data), Ok(()));
    assert_eq!(data, [16, 0, 0, 0, 2, 0, 0, 0]);
    let mut data = [7u8; 4];
    assert_eq!(device.read_config(8, &mut data), Err(DeviceError::InvalidLength));
    assert_eq!(data, [7; 4]);
}

#[test]
fn gpu_activation() {
    let queue = MockDeviceQueue();
    let both = || BTreeMap::from([(0, queue), (1, queue)]);
    let mut device = device();
    let missing = Err(DeviceError::MissingControlQueue);
    assert_eq!(device.activate(BTreeMap::new()), missing);
    assert_eq!(device.activate(BTreeMap::from([(0, queue)])), missing);
    assert_eq!(device.activate(BTreeMap::from([(1, queue)])), missing);
    assert_eq!(device.activate(both()), Err(DeviceError::MissingGpuBackend));
    assert!(device.take_worker().is_none());

    device.set_gpu_socket(42);
    // A missing queue does not cost the connection to the display.
    assert_eq!(device.activate(BTreeMap::new()), missing);
    assert_eq!(device.activate(both()), Ok(()));
    let start = device.take_worker().unwrap();
    assert_eq!(start.gpu_backend, 42);
    assert_eq!(start.gpu_config.gpu_mode(), GpuMode::VirglRenderer);
    assert_eq!(device.activate(both()), Err(DeviceError::MissingGpuBackend));
}

#[test]
fn a_stopped_gpu_has_no_worker() {
    let queue = MockDeviceQueue();
    let mut device = device();
    device.set_gpu_socket(42);
    device.activate(BTreeMap::from([(0, queue), (1, queue)])).unwrap();
    device.stop();
    assert!(device.take_worker().is_none());
}

#[test]
fn test_fail_listener() {
    // No socket can be made there.
    let socket_name = "/proc/-1/nonexistent";
    let config = GpuConfig::new(GpuMode::VirglRenderer, None, GpuFlags::default()).unwrap();
    let device: GpuDevice<u8, usize> = GpuDevice::new(config);
    let _backend = VhostUserGpuBackend::new(device);

    let served = Listener::new(socket_name, true).map(|_| ());
    assert!(matches!(
        start_backend(StartStage::Served(served)).unwrap_err(),
        StartError::ServeFailed(_)
    ));
}

#[test]
fn stages_of_the_back_end() {
    assert!(start_backend::<u8>(StartStage::BackendCreated(Ok(()))).is_ok());
    assert!(matches!(
        start_backend::<u8>(StartStage::BackendCreated(Err(GpuError::EventFdFailed))),
        Err(StartError::CouldNotCreateBackend(GpuError::EventFdFailed))
    ));
    assert!(start_backend::<u8>(StartStage::DaemonCreated(Ok(()))).is_ok());
    assert!(matches!(
        start_backend(StartStage::DaemonCreated(Err(1u8))),
        Err(StartError::CouldNotCreateDaemon(1))
    ));
    assert!(start_backend::<u8>(StartStage::Served(Ok(()))).is_ok());
    assert!(matches!(
        start_backend(StartStage::Served(Err(2u8))),
        Err(StartError::ServeFailed(2))
    ));
}
