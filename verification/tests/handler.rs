use virtio_devices::vhost_user::backend::{VhostUserDevice, VhostUserDeviceImplementer};
use virtio_devices::console::device::Console;
use virtio_devices::gpu::config::{GpuConfig, GpuFlags, GpuMode};
use virtio_devices::gpu::device::GpuDevice;
use virtio_devices::vhost_user::handler::{BackendFlags, VhostUserHandler, VhostUserHandlerError};
use virtio_devices::vhost_user::memory_map::{MappedRegion, MemoryFault, MemoryRegion};
use virtio_devices::vhost_user::state::{RefusedOperation, VhostUserError, VringState};
use virtio_devices::console::port::PortDescription;
use virtio_devices::console::vhost::VhostUserConsole;
use virtio_devices::vhost_user::features::{
    PROTOCOL_FEATURES, PROTOCOL_REPLY_ACK, PROTOCOL_SHARED_OBJECT, RING_F_EVENT_IDX,
};
use virtio_devices::gpu::vhost::VhostUserGpuBackend;
use virtio_devices::virtio::device::VirtioDevice;
use virtio_queue::QueueT;
use vm_memory::{
    Bytes, Error as MemoryError, GuestAddress, GuestMemory, GuestMemoryMmap, GuestMemoryRegion,
    MmapRegion,
};

type ConsoleHandler = VhostUserHandler<VhostUserConsole<u8, u8, usize>, u8>;
type GpuHandler = VhostUserHandler<VhostUserGpuBackend<u8, usize>, u8>;

const VERSION_1: u64 = 1 << 32;

fn console() -> Console<u8, u8, usize> {
    Console::new(vec![PortDescription::Console { input: Some(1), output: Some(2) }])
}

fn console_handler() -> ConsoleHandler {
    VhostUserHandler::new(VhostUserConsole::new(console())).unwrap()
}

fn gpu_handler() -> GpuHandler {
    let config = GpuConfig::new(GpuMode::VirglRenderer, None, GpuFlags::default()).unwrap();
    VhostUserHandler::new(VhostUserGpuBackend::new(GpuDevice::new(config))).unwrap()
}

fn region(guest: u64, size: u64, user: u64) -> MemoryRegion {
    MemoryRegion { guest_phys_addr: guest, memory_size: size, user_addr: user }
}

fn mapped(region: MemoryRegion, local_addr: u64) -> Result<MappedRegion, u8> {
    let mapping = MmapRegion::new(region.memory_size as usize).unwrap();
    Ok(MappedRegion::new(region, mapping, local_addr).unwrap())
}

fn share_memory(handler: &mut GpuHandler) -> GuestMemoryMmap<()> {
    handler
        .set_mem_table(vec![
            mapped(region(0x1000, 0x1000, 0x7000_0000), 0xa000),
            mapped(region(0x8000, 0x2000, 0x7100_0000), 0xb000),
        ])
        .unwrap()
}

/// The first address and the length of each region.
fn ranges(mem: &GuestMemoryMmap<()>) -> Vec<(u64, u64)> {
    mem.iter().map(|region| (region.start_addr().0, region.len())).collect()
}

fn ready(handler: &mut GpuHandler, index: usize) -> bool {
    handler.vring(index).unwrap().is_started()
}

#[test]
fn queues_of_devices() {
    assert_eq!(gpu_handler().get_queue_num(), 2);
    assert_eq!(console_handler().get_queue_num(), 4);
    assert_eq!(gpu_handler().get_max_mem_slots(), 509);
    assert!(gpu_handler().vring(2).is_none());
}

#[test]
fn ownership_is_exclusive() {
    let mut handler = gpu_handler();
    let claimed = Err(VhostUserError::InvalidOperation(RefusedOperation::AlreadyClaimed));
    assert_eq!(handler.set_owner(), Ok(()));
    assert_eq!(handler.set_owner(), claimed);
    assert_eq!(handler.set_owner(), claimed);
    assert_eq!(handler.reset_owner(), Ok(()));
    assert_eq!(handler.set_owner(), Ok(()));
}

#[test]
fn features_are_negotiated() {
    let mut handler = gpu_handler();
    assert_eq!(handler.get_features(), 0x0101_7100_001b);
    assert_eq!(handler.get_protocol_features(), 0x609);
    assert_eq!(handler.set_features(1 << 63), Err(VhostUserError::InvalidParam));
    assert_eq!(handler.device().acked_features(), PROTOCOL_FEATURES);

    let features = PROTOCOL_FEATURES | VERSION_1 | 1 << RING_F_EVENT_IDX;
    assert_eq!(handler.set_features(features), Ok(()));
    assert_eq!(handler.device().acked_features(), features);
    assert_eq!(handler.device().device().acked_features(), features ^ PROTOCOL_FEATURES);
    assert!(handler.vring_mut(0).unwrap().queue_mut().event_idx_enabled());
    assert!(handler.vring_mut(1).unwrap().queue_mut().event_idx_enabled());
    // With protocol features, rings are enabled one by one.
    assert!(!handler.vring(0).unwrap().is_enabled());
    assert_eq!(handler.check_feature(VERSION_1), Ok(()));
    assert_eq!(handler.check_feature(1), Err(VhostUserError::InactiveFeature(1)));

    assert_eq!(handler.set_features(PROTOCOL_FEATURES), Ok(()));
    assert!(!handler.vring_mut(0).unwrap().queue_mut().event_idx_enabled());
}

#[test]
fn console_features() {
    let mut handler = console_handler();
    assert_eq!(handler.get_features(), 0x1_4000_0003);
    assert_eq!(handler.get_protocol_features(), 0x209);
    assert_eq!(handler.set_features(PROTOCOL_FEATURES | VERSION_1), Ok(()));
    assert_eq!(handler.device().acked_features(), PROTOCOL_FEATURES | VERSION_1);
}

#[test]
fn rings_are_enabled_one_by_one() {
    let mut handler = gpu_handler();
    assert_eq!(
        handler.set_vring_enable(0, true),
        Err(VhostUserError::InactiveFeature(PROTOCOL_FEATURES))
    );
    handler.set_features(PROTOCOL_FEATURES).unwrap();
    assert_eq!(handler.set_vring_enable(2, true), Err(VhostUserError::InvalidParam));
    assert_eq!(handler.set_vring_enable(1, true), Ok(()));
    assert!(!handler.vring(0).unwrap().is_enabled());
    assert!(handler.vring(1).unwrap().is_enabled());
    assert_eq!(handler.set_vring_enable(1, false), Ok(()));
    assert!(!handler.vring(1).unwrap().is_enabled());
}

#[test]
fn addresses_are_translated() {
    let mut handler = gpu_handler();
    let missing = Err(VhostUserHandlerError::MissingMemoryMapping);
    assert_eq!(handler.vmm_va_to_gpa(0x7000_0000), missing);
    share_memory(&mut handler);
    assert_eq!(handler.vmm_va_to_gpa(0x7000_0000), Ok(0x1000));
    assert_eq!(handler.vmm_va_to_gpa(0x7000_0fff), Ok(0x1fff));
    assert_eq!(handler.vmm_va_to_gpa(0x7000_1000), missing);
    assert_eq!(handler.vmm_va_to_gpa(0x6fff_ffff), missing);
    assert_eq!(handler.vmm_va_to_gpa(0x7100_0010), Ok(0x8010));
    // The first region that holds an address decides.
    let overlapping = vec![
        mapped(region(0x1000, 0x1000, 0x5000), 0),
        mapped(region(0x9000, 0x1000, 0x5800), 0),
    ];
    handler.set_mem_table(overlapping).unwrap();
    assert_eq!(handler.vmm_va_to_gpa(0x5900), Ok(0x1900));
    assert_eq!(handler.vmm_va_to_gpa(0x6000), Ok(0x9800));
}

#[test]
fn memory_that_cannot_be_mapped_changes_nothing() {
    let mut handler = gpu_handler();
    let mem = share_memory(&mut handler);
    assert_eq!(ranges(&mem), vec![(0x1000, 0x1000), (0x8000, 0x2000)]);
    // The first region that fails decides.
    let failing = vec![mapped(region(0, 0x1000, 0x9000), 0), Err(12u8), Err(13)];
    assert!(matches!(handler.set_mem_table(failing), Err(MemoryFault::Mapping(12))));
    let beyond = region(u64::MAX - 0xfff, 0x1000, 0x9000);
    let failing = vec![mapped(beyond, 0), Err(12u8)];
    assert!(matches!(
        handler.set_mem_table(failing),
        Err(MemoryFault::Regions(MemoryError::InvalidGuestRegion))
    ));
    assert!(matches!(
        handler.set_mem_table::<u8>(vec![]),
        Err(MemoryFault::Regions(MemoryError::NoMemoryRegion))
    ));
    let overlapping = vec![
        mapped(region(0x1000, 0x1000, 0x5000), 0),
        mapped(region(0x1fff, 0x1000, 0x8000), 0),
    ];
    assert!(matches!(
        handler.set_mem_table(overlapping),
        Err(MemoryFault::Regions(MemoryError::MemoryRegionOverlap))
    ));
    let unsorted = vec![
        mapped(region(0x9000, 0x1000, 0x5000), 0),
        mapped(region(0x1000, 0x1000, 0x8000), 0),
    ];
    assert!(matches!(
        handler.set_mem_table(unsorted),
        Err(MemoryFault::Regions(MemoryError::UnsortedMemoryRegions))
    ));
    assert_eq!(handler.vmm_va_to_gpa(0x7000_0000), Ok(0x1000));
    assert!(handler.vmm_va_to_gpa(0x9000).is_err());
}

#[test]
fn regions_come_and_go() {
    let mut handler = gpu_handler();
    let mem = share_memory(&mut handler);
    let extra = region(0x4000, 0x1000, 0x7200_0000);
    assert!(matches!(handler.add_mem_region(Err(7u8), &mem), Err(MemoryFault::Mapping(7))));
    let clashing = region(0x8000, 0x1000, 0x7200_0000);
    assert!(matches!(
        handler.add_mem_region(mapped(clashing, 0), &mem),
        Err(MemoryFault::Regions(MemoryError::MemoryRegionOverlap))
    ));
    let beyond = region(u64::MAX - 0xfff, 0x1000, 0x7200_0000);
    assert!(matches!(
        handler.add_mem_region(mapped(beyond, 0), &mem),
        Err(MemoryFault::Regions(MemoryError::InvalidGuestRegion))
    ));
    assert!(handler.vmm_va_to_gpa(0x7200_0000).is_err());

    let more = handler.add_mem_region(mapped(extra, 0xc000), &mem).unwrap();
    assert_eq!(ranges(&more), vec![(0x1000, 0x1000), (0x4000, 0x1000), (0x8000, 0x2000)]);
    assert_eq!(handler.vmm_va_to_gpa(0x7200_0004), Ok(0x4004));
    // The memory has no such region.
    let other = region(0x4000, 0x2000, 0x7200_0000);
    assert!(handler.remove_mem_region(&other, &more).is_err());
    assert!(handler.remove_mem_region(&extra, &mem).is_err());
    assert_eq!(handler.vmm_va_to_gpa(0x7200_0004), Ok(0x4004));

    let less = handler.remove_mem_region(&extra, &more).unwrap();
    assert_eq!(ranges(&less), ranges(&mem));
    assert!(handler.vmm_va_to_gpa(0x7200_0004).is_err());
    assert_eq!(handler.vmm_va_to_gpa(0x7100_0000), Ok(0x8000));
}

#[test]
fn regions_come_and_go_beside_others() {
    // The memory has a region that was not shared through the handler.
    let mut handler = gpu_handler();
    let mem = GuestMemoryMmap::<()>::from_ranges(&[(GuestAddress(0x1000), 0x1000)]).unwrap();
    let extra = region(0x4000, 0x1000, 0x7200_0000);
    let more = handler.add_mem_region(mapped(extra, 0xc000), &mem).unwrap();
    assert_eq!(ranges(&more), vec![(0x1000, 0x1000), (0x4000, 0x1000)]);
    assert_eq!(handler.vmm_va_to_gpa(0x7200_0004), Ok(0x4004));
    let less = handler.remove_mem_region(&extra, &more).unwrap();
    assert_eq!(ranges(&less), ranges(&mem));
    assert!(handler.vmm_va_to_gpa(0x7200_0004).is_err());
}

#[test]
fn mappings_have_to_fit() {
    let mapping = || MmapRegion::new(0x1000).unwrap();
    assert!(MappedRegion::new(region(0, 0x1000, 0), mapping(), 0).is_some());
    assert!(MappedRegion::new(region(0, 0x1001, 0), mapping(), 0).is_none());
    assert!(MappedRegion::new(region(0, 0x1000, u64::MAX - 0xfff), mapping(), 0).is_none());
    assert!(MappedRegion::new(region(0, 0x1000, u64::MAX - 0x1000), mapping(), 0).is_some());
}

#[test]
fn sizes_of_rings_are_set() {
    let mut handler = gpu_handler();
    assert_eq!(handler.set_vring_num(2, 16), Err(VhostUserError::InvalidParam));
    assert_eq!(handler.set_vring_num(0, 0), Err(VhostUserError::InvalidParam));
    assert_eq!(handler.set_vring_num(0, 257), Err(VhostUserError::InvalidParam));
    assert_eq!(handler.set_vring_num(0, 64), Ok(()));
    assert_eq!(handler.vring_mut(0).unwrap().queue_mut().size(), 64);
    // Accepted, but no size that a queue can have.
    assert_eq!(handler.set_vring_num(0, 65), Ok(()));
    assert_eq!(handler.vring_mut(0).unwrap().queue_mut().size(), 64);
    assert_eq!(handler.vring_mut(1).unwrap().queue_mut().size(), 256);
}

#[test]
fn addresses_of_rings_are_set() {
    let mut handler = gpu_handler();
    let mem = GuestMemoryMmap::<()>::from_ranges(&[(GuestAddress(0), 0x1_0000)]).unwrap();
    mem.write_obj(78u16, GuestAddress(0x8202)).unwrap();
    let (desc, avail, used) = (0x7000_0000, 0x7000_0100, 0x7100_0200);
    assert_eq!(handler.set_vring_addr(0, desc, used, avail, &mem), Err(VhostUserError::InvalidParam));
    share_memory(&mut handler);
    let missing = Err(VhostUserError::MissingMemoryMapping);
    assert_eq!(handler.set_vring_addr(0, 0, used, avail, &mem), missing);
    assert_eq!(handler.set_vring_addr(0, desc, 0, avail, &mem), missing);
    assert_eq!(handler.set_vring_addr(0, desc, used, 0, &mem), missing);
    // An address that is not mapped is reported even if the ring does not exist.
    assert_eq!(handler.set_vring_addr(9, 0, used, avail, &mem), missing);
    assert_eq!(handler.set_vring_addr(9, desc, used, avail, &mem), Err(VhostUserError::InvalidParam));
    assert_eq!(
        handler.set_vring_addr(0, desc + 1, used, avail, &mem),
        Err(VhostUserError::InvalidParam)
    );
    assert_eq!(handler.set_vring_addr(0, desc, used, avail, &mem), Ok(()));
    let queue = handler.vring_mut(0).unwrap().queue_mut();
    assert_eq!(queue.desc_table(), 0x1000);
    assert_eq!(queue.avail_ring(), 0x1100);
    assert_eq!(queue.used_ring(), 0x8200);
    // The index of the used ring is in the memory of the guest.
    assert_eq!(queue.next_used(), 78);
    let elsewhere = GuestMemoryMmap::<()>::from_ranges(&[(GuestAddress(0), 0x1000)]).unwrap();
    assert_eq!(
        handler.set_vring_addr(0, desc, used + 4, avail, &elsewhere),
        Err(VhostUserError::BackendInternalError)
    );
    assert_eq!(handler.vring_mut(0).unwrap().queue_mut().used_ring(), 0x8204);
    assert_eq!(handler.vring_mut(0).unwrap().queue_mut().next_used(), 78);
    assert_eq!(handler.set_vring_used_idx::<u8>(0, Ok(77)), Ok(()));
    assert_eq!(handler.vring_mut(0).unwrap().queue_mut().next_used(), 77);
    assert_eq!(
        handler.set_vring_used_idx(0, Err(1u8)),
        Err(VhostUserError::BackendInternalError)
    );
    assert_eq!(handler.vring_mut(0).unwrap().queue_mut().next_used(), 77);
}

#[test]
fn base_of_a_ring() {
    let mut handler = gpu_handler();
    assert_eq!(handler.set_vring_base(2, 5), Err(VhostUserError::InvalidParam));
    assert_eq!(handler.set_vring_base(1, 0x1_0005), Ok(()));
    handler.set_vring_kick(1, Some(30), &[], vec![0, 1]);
    handler.set_vring_call(1, Some(31), &[], vec![0, 1]);
    assert!(ready(&mut handler, 1));
    let outcome = handler.get_vring_base(1, &[]);
    assert_eq!(outcome.result, Ok(VringState { index: 1, num: 5 }));
    assert!(outcome.updates.is_empty());
    assert!(!ready(&mut handler, 1));
    assert!(!handler.vring(1).unwrap().has_kick_event());
    assert_eq!(handler.get_vring_base(2, &[]).result, Err(VhostUserError::InvalidParam));
}

#[test]
fn the_first_started_ring_activates_the_device() {
    let mut handler = console_handler();
    let handles = vec![10, 11, 12, 13];
    // Without memory a ring is started, but the device is not activated.
    assert_eq!(handler.set_vring_kick(0, Some(30), &[], handles.clone()).result, Ok(()));
    assert!(handler.vring(0).unwrap().is_started());
    handler.set_mem_table(vec![mapped(region(0, 0x1000, 0x1000), 0)]).unwrap();
    assert_eq!(handler.set_vring_call(1, Some(31), &[], handles.clone()).result, Ok(()));
    assert!(!handler.vring(1).unwrap().is_started());
    assert_eq!(handler.set_vring_kick(1, Some(32), &[], handles.clone()).result, Ok(()));
    assert!(handler.vring(1).unwrap().is_started());
    // Once active, the device is not activated again.
    assert_eq!(handler.set_vring_kick(2, Some(33), &[], handles.clone()).result, Ok(()));
    assert_eq!(
        handler.set_vring_kick(4, Some(34), &[], handles).result,
        Err(VhostUserError::InvalidParam)
    );
    assert_eq!(handler.set_vring_err(4, Some(35)), Err(VhostUserError::InvalidParam));
    assert_eq!(handler.set_vring_err(3, Some(35)), Ok(()));
}

#[test]
fn a_failed_activation_is_reported() {
    let mut handler = gpu_handler();
    share_memory(&mut handler);
    // There is no display yet.
    assert_eq!(
        handler.set_vring_kick(0, Some(30), &[], vec![10, 11]).result,
        Err(VhostUserError::BackendInternalError)
    );
    assert!(ready(&mut handler, 0));

    let mut handler = gpu_handler();
    share_memory(&mut handler);
    assert_eq!(handler.set_gpu_socket(99), Ok(()));
    assert_eq!(handler.set_vring_kick(0, Some(30), &[], vec![10, 11]).result, Ok(()));
}

#[test]
fn workers_that_cannot_be_started() {
    assert_eq!(GpuHandler::workers_started::<u8>(Ok(())), Ok(()));
    assert_eq!(
        GpuHandler::workers_started(Err(1u8)),
        Err(VhostUserError::BackendInternalError)
    );
}

#[test]
fn a_reset_stops_all_rings() {
    let mut handler = gpu_handler();
    handler.set_owner().unwrap();
    handler.set_features(PROTOCOL_FEATURES | VERSION_1).unwrap();
    handler.set_protocol_features(PROTOCOL_REPLY_ACK).unwrap();
    handler.vring_mut(0).unwrap().add_epoll(1, 40, &[]);
    handler.set_vring_enable(0, true).unwrap();
    handler.set_vring_kick(0, Some(30), &[Some(100)], vec![10, 11]);
    assert!(ready(&mut handler, 0));

    let updates = handler.reset_device(&[vec![Some(100)], vec![]]);
    assert_eq!(updates.len(), 2);
    assert_eq!(updates[0].len(), 1);
    assert_eq!(updates[0][0].request.fd, 30);
    assert!(updates[1].is_empty());
    assert!(!ready(&mut handler, 0));
    assert!(!handler.vring(0).unwrap().is_enabled());
    assert!(handler.vring(0).unwrap().has_kick_event());
    assert!(handler.check_feature(PROTOCOL_FEATURES).is_err());
    // The owner and the protocol features stay.
    assert!(handler.set_owner().is_err());
    assert!(handler.set_backend_req_fd().reply_ack);
}

#[test]
fn channel_flags_go_by_what_was_negotiated() {
    let mut handler = gpu_handler();
    assert_eq!(
        handler.set_backend_req_fd(),
        BackendFlags { reply_ack: false, shared_object: false }
    );
    handler.set_protocol_features(PROTOCOL_SHARED_OBJECT).unwrap();
    assert_eq!(
        handler.set_backend_req_fd(),
        BackendFlags { reply_ack: false, shared_object: true }
    );
    handler.set_protocol_features(PROTOCOL_REPLY_ACK | PROTOCOL_SHARED_OBJECT).unwrap();
    assert_eq!(
        handler.set_backend_req_fd(),
        BackendFlags { reply_ack: true, shared_object: true }
    );
    handler.reset_owner().unwrap();
    assert_eq!(
        handler.set_backend_req_fd(),
        BackendFlags { reply_ack: false, shared_object: false }
    );
}

#[test]
fn configuration_space() {
    let mut handler = console_handler();
    assert_eq!(handler.get_config(0, 4), Ok(vec![80, 0, 24, 0]));
    assert_eq!(handler.get_config(4, 4), Ok(vec![1, 0, 0, 0]));
    // What lies behind the configuration space stays zero.
    assert_eq!(handler.get_config(10, 4), Ok(vec![0, 0, 0, 0]));
    assert_eq!(handler.get_config(12, 1), Err(VhostUserError::BackendInternalError));
    assert_eq!(handler.set_config(0, &[1]), Err(VhostUserError::BackendInternalError));

    let handler = gpu_handler();
    assert_eq!(
        handler.get_config(0, 16),
        Ok(vec![0, 0, 0, 0, 0, 0, 0, 0, 16, 0, 0, 0, 2, 0, 0, 0])
    );
    assert_eq!(handler.get_config(12, 4), Ok(vec![2, 0, 0, 0]));
    assert_eq!(handler.get_config(16, 0), Ok(vec![]));
    assert_eq!(handler.get_config(0, 4), Err(VhostUserError::BackendInternalError));
}

#[test]
fn requests_in_flight_are_not_supported() {
    let refused = Err(VhostUserError::InvalidOperation(RefusedOperation::NotSupported));
    assert_eq!(gpu_handler().get_inflight_fd(), refused);
    assert_eq!(gpu_handler().set_inflight_fd(), refused);
}

#[test]
fn postcopy_migration() {
    let mut handler = gpu_handler();
    share_memory(&mut handler);
    assert_eq!(handler.postcopy_listen(), Err(VhostUserError::NoUserFaultHandler));
    assert_eq!(handler.postcopy_advice(Err(1u8)), Err(1));
    assert_eq!(handler.postcopy_listen(), Err(VhostUserError::NoUserFaultHandler));
    assert_eq!(handler.postcopy_advice::<u8>(Ok(())), Ok(()));
    assert_eq!(handler.postcopy_listen(), Ok(vec![(0xa000, 0x1000), (0xb000, 0x2000)]));
    assert_eq!(handler.postcopy_end(), Ok(()));
    assert_eq!(handler.postcopy_listen(), Err(VhostUserError::NoUserFaultHandler));
}

#[test]
fn bitmaps_are_all_created_first() {
    assert_eq!(GpuHandler::set_log_base::<u8, u8>(vec![Ok(1), Ok(2)]), Ok(vec![1, 2]));
    assert_eq!(GpuHandler::set_log_base::<u8, u8>(vec![Ok(1), Err(7), Err(8)]), Err(7));
    assert_eq!(GpuHandler::set_log_base::<u8, u8>(vec![]), Ok(vec![]));
}

#[test]
fn stopping_the_device() {
    let mut handler = gpu_handler();
    share_memory(&mut handler);
    handler.set_gpu_socket(99).unwrap();
    handler.set_vring_kick(0, Some(30), &[], vec![10, 11]);
    handler.send_exit_event();
    assert_eq!(handler.device().protocol_features(), 0x609);
}

#[test]
fn device_can_be_changed() {
    let mut handler = gpu_handler();
    assert!(handler.device_mut().device_mut().take_worker().is_none());
    handler.device_mut().set_acked_features(PROTOCOL_FEATURES | VERSION_1);
    assert_eq!(handler.device().acked_features(), PROTOCOL_FEATURES | VERSION_1);
}
