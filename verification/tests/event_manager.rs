use virtio_devices::events::manager::{
    ControlOperation, EpollEvent, EpollRequest, EventDescriptor, EventManager, TriggeredEvent, Waited,
    MAX_EVENTS,
};
use virtio_devices::events::set::{EVENT_HANG_UP, EVENT_IN, EVENT_OUT, EVENT_READ_HANG_UP};
use virtio_devices::gpu::worker::WorkerToken;

fn manager() -> EventManager<WorkerToken> {
    EventManager::new(5)
}

#[test]
fn requests_for_descriptors() {
    let manager = manager();
    assert_eq!(manager.as_raw_fd(), 5);
    assert_eq!(
        manager.add_fd(9, EVENT_OUT, WorkerToken::CursorQ),
        EpollRequest {
            operation: ControlOperation::Add,
            fd: 9,
            event: EpollEvent { events: 4, data: 2 },
        }
    );
    assert_eq!(
        manager.modify_fd(9, EVENT_IN, WorkerToken::Poll),
        EpollRequest {
            operation: ControlOperation::Modify,
            fd: 9,
            event: EpollEvent { events: 1, data: 3 },
        }
    );
    assert_eq!(
        manager.delete_fd(9),
        EpollRequest {
            operation: ControlOperation::Delete,
            fd: 9,
            event: EpollEvent { events: 0, data: 0 },
        }
    );
    assert_eq!(
        manager.add(&EventDescriptor { fd: 9 }, WorkerToken::ControlQ),
        Some(EpollRequest {
            operation: ControlOperation::Add,
            fd: 9,
            event: EpollEvent { events: 1, data: 1 },
        })
    );
    assert_eq!(manager.remove(&EventDescriptor { fd: 9 }), Some(manager.delete_fd(9)));
}

#[test]
fn deleting_what_is_not_watched_is_no_error() {
    assert_eq!(EventManager::<u32>::fd_deleted::<u8>(Ok(()), false), Ok(()));
    assert_eq!(EventManager::<u32>::fd_deleted::<u8>(Err(2), true), Ok(()));
    assert_eq!(EventManager::<u32>::fd_deleted::<u8>(Err(9), false), Err(9));
}

#[test]
fn timeouts() {
    assert_eq!(EventManager::<u32>::timeout_millis(None), -1);
    assert_eq!(EventManager::<u32>::timeout_millis(Some(0)), 0);
    assert_eq!(EventManager::<u32>::timeout_millis(Some(1500)), 1500);
    assert_eq!(EventManager::<u32>::timeout_millis(Some(i32::MAX as u128)), i32::MAX);
    assert_eq!(EventManager::<u32>::timeout_millis(Some(i32::MAX as u128 + 1)), i32::MAX);
}

#[test]
fn reports_are_read_in_order() {
    let mut reports = [EpollEvent { events: 0, data: 0 }; MAX_EVENTS];
    reports[0] = EpollEvent { events: EVENT_IN, data: 1 };
    reports[1] = EpollEvent { events: EVENT_OUT | EVENT_READ_HANG_UP, data: 3 };
    reports[2] = EpollEvent { events: EVENT_HANG_UP | 0x0100_0000, data: 0 };
    let events = match manager().wait_timeout::<u8>(Ok(3), false, &reports) {
        Waited::Done(events) => events,
        _ => unreachable!(),
    };
    assert_eq!(events.len(), 3);
    assert_eq!(*events[0].token(), WorkerToken::ControlQ);
    assert!(events[0].readable() && !events[0].writable() && !events[0].hungup());
    assert_eq!(*events[1].token(), WorkerToken::Poll);
    assert!(!events[1].readable() && events[1].writable() && events[1].hungup());
    assert_eq!(*events[2].token(), WorkerToken::Quit);
    assert!(!events[2].readable() && !events[2].writable() && events[2].hungup());
}

#[test]
fn waits_without_a_limit() {
    let reports = [EpollEvent { events: EVENT_IN, data: 1 }, EpollEvent { events: 0, data: 0 }];
    let events = match manager().wait::<u8>(Ok(1), false, &reports) {
        Waited::Done(events) => events,
        _ => unreachable!(),
    };
    assert_eq!(events.len(), 1);
    assert_eq!(*events[0].token(), WorkerToken::ControlQ);
    assert!(events[0].readable() && !events[0].writable() && !events[0].hungup());
    assert!(matches!(manager().wait::<u8>(Err(4), true, &[]), Waited::Again));
    assert!(matches!(manager().wait::<u8>(Err(9), false, &[]), Waited::Failed(9)));
}

#[test]
fn interrupted_waits_are_repeated() {
    assert!(matches!(manager().wait_timeout::<u8>(Err(4), true, &[]), Waited::Again));
    assert!(matches!(manager().wait_timeout::<u8>(Err(9), false, &[]), Waited::Failed(9)));
    let report = EpollEvent { events: EVENT_IN, data: 2 };
    assert!(matches!(manager().wait_one::<u8>(Err(4), true, report), Waited::Again));
    assert!(matches!(manager().wait_one::<u8>(Err(9), false, report), Waited::Failed(9)));
}

#[test]
fn single_report() {
    let report = EpollEvent { events: EVENT_IN | EVENT_OUT, data: 2 };
    let event = match manager().wait_one::<u8>(Ok(1), false, report) {
        Waited::Done(event) => event,
        _ => unreachable!(),
    };
    assert_eq!(*event.token(), WorkerToken::CursorQ);
    assert!(event.readable() && event.writable() && !event.hungup());
}

#[test]
fn triggered_event_keeps_its_parts() {
    let event = TriggeredEvent::new(7u32, true, false, true);
    assert_eq!(*event.token(), 7);
    assert!(event.readable());
    assert!(!event.writable());
    assert!(event.hungup());
}

#[test]
fn modified_descriptors_are_reported_with_the_new_token() {
    let added = manager().add_fd(5, EVENT_IN, WorkerToken::ControlQ);
    let modified = manager().modify_fd(5, EVENT_OUT, WorkerToken::Poll);
    assert_eq!(added.fd, modified.fd);
    assert_ne!(added.event.data, modified.event.data);
    // Hangups are reported even though they were not asked for.
    let report =
        EpollEvent { events: modified.event.events | EVENT_HANG_UP, data: modified.event.data };
    let event = match manager().wait_one::<u8>(Ok(1), false, report) {
        Waited::Done(event) => event,
        _ => unreachable!(),
    };
    assert_eq!(*event.token(), WorkerToken::Poll);
    assert!(!event.readable() && event.writable() && event.hungup());
}
