use virtio_devices::virtio::device_queue::{DeviceQueue, KickRead};
use virtio_devices::events::manager::{
    ControlOperation, EpollEvent, EpollRequest, EventManager, EventSource,
};
use virtio_devices::virtio::queue_args::QueueArgs;
use virtio_devices::virtio::virtqueue::VirtQueueError;
use virtio_devices::vhost_user::vring::{KickUpdate, Vring};
use virtio_queue::QueueT;

fn ring() -> Vring<u8> {
    Vring::new(&QueueArgs::new(0x1000)).unwrap()
}

fn added(fd: i32, token: u64) -> EpollRequest {
    EpollRequest {
        operation: ControlOperation::Add,
        fd,
        event: EpollEvent { events: 1, data: token },
    }
}

fn removed(fd: i32) -> EpollRequest {
    EpollRequest {
        operation: ControlOperation::Delete,
        fd,
        event: EpollEvent { events: 1, data: 0 },
    }
}

#[test]
fn test_new_vring() {
    let mut vring = ring();

    assert!(vring.kick().is_none());
    assert!(!vring.is_enabled());
    assert!(!vring.queue_mut().ready());
    assert!(!vring.queue_mut().event_idx_enabled());

    vring.set_enabled(true);
    assert!(vring.is_enabled());

    vring.set_queue_info(0x100100, 0x100200, 0x100300).unwrap();
    assert_eq!(vring.queue_mut().desc_table(), 0x100100);
    assert_eq!(vring.queue_mut().avail_ring(), 0x100200);
    assert_eq!(vring.queue_mut().used_ring(), 0x100300);

    assert_eq!(vring.queue_mut().next_avail(), 0);
    vring.queue_mut().set_next_avail(0x20);
    assert_eq!(vring.queue_mut().next_avail(), 0x20);

    vring.queue_mut().set_size(0x200);
    assert_eq!(vring.queue_mut().size(), 0x200);

    vring.queue_mut().set_event_idx(true);
    assert!(vring.queue_mut().event_idx_enabled());

    vring.start(&[]);
    assert!(vring.queue_mut().ready());
    assert!(vring.is_started());
}

#[test]
fn test_vring_set_fd() {
    let mut vring = ring();

    vring.set_enabled(true);
    assert!(vring.is_enabled());

    assert!(!vring.has_kick_event());
    assert!(vring.read_kick::<u8>(KickRead::NoEvent).unwrap());
    assert!(vring.set_kick(Some(7), &[]).is_empty());
    assert!(vring.read_kick::<u8>(KickRead::Count(1)).unwrap());
    assert!(vring.has_kick_event());
    assert_eq!(vring.kick(), Some(7));
    vring.set_kick(None, &[]);
    assert!(!vring.has_kick_event());

    assert!(vring.signal_used_queue().is_none());
    vring.set_call(Some(8));
    assert_eq!(vring.signal_used_queue(), Some(8));
    vring.set_call(None);
    assert!(vring.signal_used_queue().is_none());

    assert!(vring.err().is_none());
    vring.set_err(Some(9));
    assert!(vring.err().is_some());
    assert_eq!(vring.err(), Some(9));
    vring.set_err(None);
    assert!(vring.err().is_none());
}

#[test]
fn sizes_of_rings() {
    assert!(Vring::<u8>::new(&QueueArgs::new(1)).is_ok());
    assert!(Vring::<u8>::new(&QueueArgs::new(32768)).is_ok());
    for size in [0, 3, 0x101, 32769, 65535] {
        assert!(matches!(
            Vring::<u8>::new(&QueueArgs::new(size)),
            Err(VirtQueueError::InvalidMaxSize)
        ));
    }
}

#[test]
fn misaligned_addresses() {
    let mut vring = ring();
    assert_eq!(
        vring.set_queue_info(0x18, 0x20, 0x40),
        Err(VirtQueueError::InvalidDescTableAlign)
    );
    assert_eq!(vring.queue_mut().desc_table(), 0);
    assert_eq!(
        vring.set_queue_info(0x10, 0x21, 0x40),
        Err(VirtQueueError::InvalidAvailRingAlign)
    );
    assert_eq!(vring.queue_mut().desc_table(), 0x10);
    assert_eq!(
        vring.set_queue_info(0x30, 0x22, 0x42),
        Err(VirtQueueError::InvalidUsedRingAlign)
    );
    assert_eq!(vring.queue_mut().desc_table(), 0x30);
    assert_eq!(vring.queue_mut().avail_ring(), 0x22);
    assert_eq!(vring.queue_mut().used_ring(), 0);
    assert_eq!(vring.set_queue_info(0x30, 0x22, 0x44), Ok(()));
    assert_eq!(vring.queue_mut().used_ring(), 0x44);
}

#[test]
fn only_enabled_and_started_rings_are_processed() {
    let mut vring = ring();
    assert!(vring.try_lock_queue().is_none());
    vring.set_enabled(true);
    assert!(vring.try_lock_queue().is_none());
    vring.start(&[]);
    assert!(vring.try_lock_queue().is_some());
    vring.try_lock_queue().unwrap().set_next_avail(9);
    assert_eq!(vring.queue_mut().next_avail(), 9);
    vring.set_enabled(false);
    assert!(vring.try_lock_queue().is_none());
    vring.set_enabled(true);
    assert_eq!(vring.stop::<u8>(Ok(())), Ok(()));
    assert!(vring.try_lock_queue().is_none());
}

#[test]
fn a_ring_goes_on_if_it_cannot_be_stopped() {
    let mut vring = ring();
    vring.start(&[]);
    assert_eq!(vring.stop::<u8>(Err(5)), Err(5));
    assert!(vring.is_started());
    assert_eq!(vring.stop::<u8>(Ok(())), Ok(()));
    assert!(!vring.is_started());
}

#[test]
fn kicks_that_are_read() {
    let mut vring = ring();
    assert_eq!(vring.read_kick::<u8>(KickRead::WouldBlock), Ok(false));
    vring.set_enabled(true);
    assert_eq!(vring.read_kick::<u8>(KickRead::WouldBlock), Ok(true));
    assert_eq!(vring.read_kick::<u8>(KickRead::Failed(3)), Err(3));
}

#[test]
fn instances_follow_the_kick_descriptor() {
    let mut vring = ring();
    assert_eq!(vring.kick_event().register_self(40), None);
    assert_eq!(vring.registered::<u8>(Ok(()), 1, 40, &[]), Ok(()));
    assert_eq!(vring.registered::<u8>(Ok(()), 2, 41, &[Some(100)]), Ok(()));
    assert_eq!(vring.epolls().len(), 2);
    let live = [Some(100), Some(101)];

    // Nothing is watched before the ring is started.
    assert!(vring.set_kick(Some(7), &live).is_empty());
    assert_eq!(
        vring.start(&live),
        vec![
            KickUpdate { entry: 0, request: added(7, 40) },
            KickUpdate { entry: 1, request: added(7, 41) },
        ]
    );
    assert_eq!(
        vring.set_kick(Some(8), &live),
        vec![
            KickUpdate { entry: 0, request: removed(7) },
            KickUpdate { entry: 0, request: added(8, 40) },
            KickUpdate { entry: 1, request: removed(7) },
            KickUpdate { entry: 1, request: added(8, 41) },
        ]
    );
    // An instance that is gone is not changed.
    assert_eq!(
        vring.stop_updates(&[None, Some(101)]),
        vec![KickUpdate { entry: 1, request: removed(8) }]
    );
    assert_eq!(vring.kick_event().register_self(50), Some(added(8, 50)));
    assert_eq!(vring.kick_event().unregister_self(), Some(removed(8)));
    let manager: EventManager<u32> = EventManager::new(3);
    assert_eq!(manager.add(&vring.kick_event(), 51), Some(added(8, 51)));
    assert_eq!(manager.remove(&vring.kick_event()), Some(removed(8)));
}

#[test]
fn stopping_undoes_starting() {
    let mut vring = ring();
    vring.add_epoll(1, 40, &[]);
    vring.add_epoll(2, 41, &[Some(100)]);
    vring.set_kick(Some(7), &[Some(100), None]);
    let started = vring.start(&[Some(100), None]);
    let stopped = vring.stop_updates(&[Some(100), None]);
    assert_eq!(started.len(), 1);
    assert_eq!(stopped.len(), 1);
    assert_eq!(started[0].entry, stopped[0].entry);
    assert_eq!(started[0].request, added(7, 40));
    assert_eq!(stopped[0].request, removed(7));
}

#[test]
fn instances_are_forgotten() {
    let mut vring = ring();
    vring.add_epoll(1, 40, &[]);
    vring.add_epoll(2, 41, &[Some(100)]);
    vring.add_epoll(3, 42, &[Some(100), Some(101)]);
    // Adding one forgets those that are gone.
    vring.add_epoll(4, 43, &[Some(100), None, Some(102)]);
    let tokens: Vec<u64> = vring.epolls().iter().map(|e| e.token).collect();
    assert_eq!(tokens, vec![40, 42, 43]);
    // So does removing one.
    vring.remove_epoll(102, &[None, Some(102), Some(103)]);
    let handles: Vec<u8> = vring.epolls().iter().map(|e| e.epoll).collect();
    assert_eq!(handles, vec![4]);
    // A failed registration is not remembered.
    assert_eq!(vring.registered::<u8>(Err(1), 5, 44, &[Some(103)]), Err(1));
    assert_eq!(vring.epolls().len(), 1);
}
