//! What is asked of an epoll instance, and what its answers mean.

use crate::events::set::{event_bits_truncate, event_hang_up, event_in, event_out, event_read_hang_up};
use crate::events::token::EventToken;
use std::marker::PhantomData;
use vstd::prelude::*;

verus! {

/// Represents an event that has been signaled and waited for via a wait function.
#[derive(Copy, Clone, Debug)]
pub struct TriggeredEvent<T: EventToken> {
    token: T,
    readable: bool,
    writable: bool,
    hungup: bool,
}

impl<T: EventToken> TriggeredEvent<T> {
    /// The token that was registered with the descriptor.
    pub closed spec fn spec_token(&self) -> T {
        self.token
    }

    /// Whether the descriptor can be read from.
    pub closed spec fn spec_readable(&self) -> bool {
        self.readable
    }

    /// Whether the descriptor can be written to.
    pub closed spec fn spec_writable(&self) -> bool {
        self.writable
    }

    /// Whether the other side is gone.
    pub closed spec fn spec_hungup(&self) -> bool {
        self.hungup
    }

    /// Whether this is what epoll reported as `event`.
    pub open spec fn is_report_of(&self, event: EpollEvent) -> bool {
        let events = event.events & crate::events::set::EVENT_ALL;
        &&& self.spec_token() == T::token_of(event.data)
        &&& self.spec_readable() == crate::events::set::holds_events(
            events,
            crate::events::set::EVENT_IN,
        )
        &&& self.spec_writable() == crate::events::set::holds_events(
            events,
            crate::events::set::EVENT_OUT,
        )
        &&& self.spec_hungup() == (crate::events::set::holds_events(
            events,
            crate::events::set::EVENT_HANG_UP,
        ) || crate::events::set::holds_events(events, crate::events::set::EVENT_READ_HANG_UP))
    }

    /// An event with the given token and conditions.
    pub fn new(token: T, readable: bool, writable: bool, hungup: bool) -> (event: Self)
        ensures
            event.spec_token() == token,
            event.spec_readable() == readable,
            event.spec_writable() == writable,
            event.spec_hungup() == hungup,
    {
        Self { token, readable, writable, hungup }
    }

    /// The token that was registered with the descriptor.
    pub fn token(&self) -> (token: &T)
        ensures
            *token == self.spec_token(),
    {
        &self.token
    }

    /// Whether the descriptor can be read from.
    pub fn readable(&self) -> (readable: bool)
        ensures
            readable == self.spec_readable(),
    {
        self.readable
    }

    /// Whether the descriptor can be written to.
    pub fn writable(&self) -> (writable: bool)
        ensures
            writable == self.spec_writable(),
    {
        self.writable
    }

    /// Whether the other side is gone.
    pub fn hungup(&self) -> (hungup: bool)
        ensures
            hungup == self.spec_hungup(),
    {
        self.hungup
    }
}

/// One entry of what epoll reports: a mask of events and the data registered with them.
#[derive(Copy, Clone, Debug, PartialEq, Eq, Structural)]
pub struct EpollEvent {
    /// The events that happened.
    pub events: u32,
    /// The data that was registered for the descriptor.
    pub data: u64,
}

/// What to do with a descriptor in the interest list of an epoll instance.
#[derive(Copy, Clone, Debug, PartialEq, Eq, Structural)]
pub enum ControlOperation {
    /// Add the descriptor.
    Add,
    /// Change what an added descriptor is watched for.
    Modify,
    /// Remove the descriptor.
    Delete,
}

/// A change to the interest list of an epoll instance.
#[derive(Copy, Clone, Debug, PartialEq, Eq, Structural)]
pub struct EpollRequest {
    /// What to do with the descriptor.
    pub operation: ControlOperation,
    /// The descriptor.
    pub fd: i32,
    /// What to watch it for.
    pub event: EpollEvent,
}

impl EpollRequest {
    /// What to ask for a descriptor that is to be watched for some events, so that the given bits
    /// are reported with them.
    pub open spec fn add_fd(fd: i32, event_set: u32, data: u64) -> EpollRequest {
        EpollRequest {
            operation: ControlOperation::Add,
            fd,
            event: EpollEvent { events: event_set, data },
        }
    }

    /// What to ask for a descriptor whose events and bits are to be replaced.
    pub open spec fn modify_fd(fd: i32, event_set: u32, data: u64) -> EpollRequest {
        EpollRequest {
            operation: ControlOperation::Modify,
            fd,
            event: EpollEvent { events: event_set, data },
        }
    }

    /// What to ask for a descriptor that is not to be watched any more.
    pub open spec fn delete_fd(fd: i32) -> EpollRequest {
        EpollRequest {
            operation: ControlOperation::Delete,
            fd,
            event: EpollEvent { events: 0, data: 0 },
        }
    }

    /// What a request makes of an interest list, which holds what each descriptor is watched for, or
    /// `None` if the request is refused: only a descriptor that is not in the list can be added, and
    /// only one that is can be modified or deleted.
    pub open spec fn applied(self, interest: Map<i32, EpollEvent>) -> Option<Map<i32, EpollEvent>> {
        if interest.dom().contains(self.fd) == (self.operation == ControlOperation::Add) {
            None
        } else if self.operation == ControlOperation::Delete {
            Some(interest.remove(self.fd))
        } else {
            Some(interest.insert(self.fd, self.event))
        }
    }
}

/// Whether an instance with the given interest list can report `event` of a descriptor: it reports
/// the data that was registered, and no events but those that were asked for, errors and hangups.
pub open spec fn can_report(interest: Map<i32, EpollEvent>, fd: i32, event: EpollEvent) -> bool {
    &&& interest.dom().contains(fd)
    &&& event.data == interest[fd].data
    &&& event.events & !(interest[fd].events | crate::events::set::EVENT_ERROR
        | crate::events::set::EVENT_HANG_UP) == 0
}

/// Any abstract event that can be watched by an epoll instance.
pub trait EventSource {
    /// What to ask of an instance that is to report the event as `token`.
    spec fn registration(&self, token: u64) -> Option<EpollRequest>;

    /// What to ask of an instance that is not to report the event any more.
    spec fn removal(&self) -> Option<EpollRequest>;

    /// What to ask of an instance that is to report the event as `token`.
    fn register_self(&self, token: u64) -> (request: Option<EpollRequest>)
        ensures
            request == self.registration(token),
    ;

    /// What to ask of an instance that is not to report the event any more.
    fn unregister_self(&self) -> (request: Option<EpollRequest>)
        ensures
            request == self.removal(),
    ;
}

/// An event descriptor, which is an event when it is readable.
#[derive(Copy, Clone, Debug, PartialEq, Eq, Structural)]
pub struct EventDescriptor {
    /// The descriptor.
    pub fd: i32,
}

impl EventSource for EventDescriptor {
    open spec fn registration(&self, token: u64) -> Option<EpollRequest> {
        Some(
            EpollRequest {
                operation: ControlOperation::Add,
                fd: self.fd,
                event: EpollEvent { events: crate::events::set::EVENT_IN, data: token },
            },
        )
    }

    open spec fn removal(&self) -> Option<EpollRequest> {
        Some(
            EpollRequest {
                operation: ControlOperation::Delete,
                fd: self.fd,
                event: EpollEvent { events: 0, data: 0 },
            },
        )
    }

    fn register_self(&self, token: u64) -> (request: Option<EpollRequest>) {
        Some(
            EpollRequest {
                operation: ControlOperation::Add,
                fd: self.fd,
                event: EpollEvent { events: event_in(), data: token },
            },
        )
    }

    fn unregister_self(&self) -> (request: Option<EpollRequest>) {
        Some(
            EpollRequest {
                operation: ControlOperation::Delete,
                fd: self.fd,
                event: EpollEvent { events: 0, data: 0 },
            },
        )
    }
}

/// What became of one wait on an epoll instance.
pub enum Waited<R, E> {
    /// Events were reported.
    Done(R),
    /// The wait was interrupted and has to be repeated.
    Again,
    /// The wait failed.
    Failed(E),
}

/// Used to wait for multiple objects which are eligible for waiting.
///
/// The epoll instance is its caller's: the manager says what to ask of it and reads the answers.
pub struct EventManager<T: EventToken> {
    epoll: i32,
    tokens: PhantomData<T>,
}

/// The largest number of events that one wait reports.
pub const MAX_EVENTS: usize = 16;

impl<T: EventToken> EventManager<T> {
    /// The descriptor of the epoll instance.
    pub closed spec fn spec_epoll(&self) -> i32 {
        self.epoll
    }

    /// Creates a manager for the epoll instance with the given descriptor.
    pub fn new(epoll: i32) -> (manager: EventManager<T>)
        ensures
            manager.spec_epoll() == epoll,
    {
        EventManager { epoll, tokens: PhantomData }
    }

    /// The descriptor of the epoll instance.
    pub fn as_raw_fd(&self) -> (fd: i32)
        ensures
            fd == self.spec_epoll(),
    {
        self.epoll
    }

    /// What to ask for a descriptor that is to be watched for the specified events, so that the
    /// given token is associated with them.
    ///
    /// A descriptor can only be added once and does not need to be kept open.
    pub fn add_fd(&self, fd: i32, event_set: u32, token: T) -> (request: EpollRequest)
        requires
            token.is_token(),
        ensures
            request == EpollRequest::add_fd(fd, event_set, token.raw_token()),
    {
        let data: u64 = token.as_raw_token();
        EpollRequest {
            operation: ControlOperation::Add,
            fd,
            event: EpollEvent { events: event_set, data },
        }
    }

    /// What to ask for an added descriptor whose events and token are to be replaced.
    pub fn modify_fd(&self, fd: i32, event_set: u32, token: T) -> (request: EpollRequest)
        requires
            token.is_token(),
        ensures
            request == EpollRequest::modify_fd(fd, event_set, token.raw_token()),
    {
        let data: u64 = token.as_raw_token();
        EpollRequest {
            operation: ControlOperation::Modify,
            fd,
            event: EpollEvent { events: event_set, data },
        }
    }

    /// What to ask for a descriptor that is not to be watched any more. What came of it goes to
    /// [`EventManager::fd_deleted`].
    ///
    /// If the token of a descriptor shows up in a hangup event, the descriptor should be removed.
    /// Otherwise every wait returns immediately.
    pub fn delete_fd(&self, fd: i32) -> (request: EpollRequest)
        ensures
            request == EpollRequest::delete_fd(fd),
    {
        EpollRequest {
            operation: ControlOperation::Delete,
            fd,
            event: EpollEvent { events: 0, data: 0 },
        }
    }

    /// What to make of the outcome of a deletion, where `not_found` tells of an error whether it
    /// means that the descriptor was not watched: that is silently dropped.
    pub fn fd_deleted<E>(deleted: Result<(), E>, not_found: bool) -> (result: Result<(), E>)
        ensures
            result == if deleted is Err && not_found {
                Ok(())
            } else {
                deleted
            },
    {
        if deleted.is_err() && not_found {
            Ok(())
        } else {
            deleted
        }
    }

    /// What to ask so that the given token is associated with an event source, which may be
    /// nothing as long as the source has no descriptor.
    pub fn add<S: EventSource>(&self, event_source: &S, token: T) -> (request: Option<EpollRequest>)
        requires
            token.is_token(),
        ensures
            request == event_source.registration(token.raw_token()),
    {
        event_source.register_self(token.as_raw_token())
    }

    /// What to ask so that an event source is not watched any more.
    pub fn remove<S: EventSource>(&self, event_source: &S) -> (request: Option<EpollRequest>)
        ensures
            request == event_source.removal(),
    {
        event_source.unregister_self()
    }

    /// The timeout to hand to epoll, in milliseconds: negative to wait for ever, and no more than
    /// fits.
    pub fn timeout_millis(timeout: Option<u128>) -> (millis: i32)
        ensures
            millis == (match timeout {
                None => -1int,
                Some(timeout) => if timeout <= i32::MAX {
                    timeout as int
                } else {
                    i32::MAX as int
                },
            }),
    {
        match timeout {
            None => -1,
            Some(timeout) => if timeout <= i32::MAX as u128 {
                timeout as i32
            } else {
                i32::MAX
            },
        }
    }

    /// Reads one report of epoll.
    fn triggered_event(event: EpollEvent) -> (triggered: TriggeredEvent<T>)
        requires
            T::is_raw_token(event.data),
        ensures
            triggered.is_report_of(event),
    {
        let events: u32 = event_bits_truncate(event.events);
        let input: u32 = event_in();
        let output: u32 = event_out();
        let hang_up: u32 = event_hang_up();
        let read_hang_up: u32 = event_read_hang_up();
        TriggeredEvent {
            token: T::from_raw_token(event.data),
            readable: events & input == input,
            writable: events & output == output,
            hungup: events & hang_up == hang_up || events & read_hang_up == read_hang_up,
        }
    }

    /// Whether `outcome` is what the answer of epoll to a wait means, where `waited` is the number of
    /// events at the start of `epoll_events`, or an error.
    pub open spec fn is_reading<E>(
        waited: Result<usize, E>,
        interrupted: bool,
        epoll_events: Seq<EpollEvent>,
        outcome: Waited<Vec<TriggeredEvent<T>>, E>,
    ) -> bool {
        match waited {
            Ok(event_count) => {
                &&& outcome is Done
                &&& outcome->Done_0@.len() == event_count
                &&& forall|i: int|
                    0 <= i < event_count ==> (#[trigger] outcome->Done_0@[i]).is_report_of(
                        epoll_events[i],
                    )
            },
            Err(e) => outcome == if interrupted {
                Waited::<Vec<TriggeredEvent<T>>, E>::Again
            } else {
                Waited::Failed(e)
            },
        }
    }

    /// Reads the answer of epoll to a wait without a limit, for which [`EventManager::timeout_millis`]
    /// gives the timeout if there is none, as [`EventManager::wait_timeout`] does.
    pub fn wait<E>(
        &self,
        waited: Result<usize, E>,
        interrupted: bool,
        epoll_events: &[EpollEvent],
    ) -> (outcome: Waited<Vec<TriggeredEvent<T>>, E>)
        requires
            waited matches Ok(event_count) ==> {
                &&& event_count <= epoll_events@.len()
                &&& forall|i: int|
                    0 <= i < event_count ==> T::is_raw_token(#[trigger] epoll_events@[i].data)
            },
        ensures
            Self::is_reading(waited, interrupted, epoll_events@, outcome),
    {
        self.wait_timeout(waited, interrupted, epoll_events)
    }

    /// Reads the answer of epoll to a wait with a timeout of [`EventManager::timeout_millis`]:
    /// `waited` is the number of events at the start of `epoll_events`, or an error, and
    /// `interrupted` tells of an error whether a signal caused it.
    pub fn wait_timeout<E>(
        &self,
        waited: Result<usize, E>,
        interrupted: bool,
        epoll_events: &[EpollEvent],
    ) -> (outcome: Waited<Vec<TriggeredEvent<T>>, E>)
        requires
            waited matches Ok(event_count) ==> {
                &&& event_count <= epoll_events@.len()
                &&& forall|i: int|
                    0 <= i < event_count ==> T::is_raw_token(#[trigger] epoll_events@[i].data)
            },
        ensures
            Self::is_reading(waited, interrupted, epoll_events@, outcome),
    {
        let event_count: usize = match waited {
            Ok(event_count) => event_count,
            Err(e) => {
                return if interrupted {
                    Waited::Again
                } else {
                    Waited::Failed(e)
                };
            },
        };
        let mut events: Vec<TriggeredEvent<T>> = Vec::new();
        let mut i: usize = 0;
        while i < event_count
            invariant
                i <= event_count <= epoll_events@.len(),
                events@.len() == i,
                forall|j: int|
                    0 <= j < event_count ==> T::is_raw_token(#[trigger] epoll_events@[j].data),
                forall|j: int|
                    0 <= j < i ==> (#[trigger] events@[j]).is_report_of(epoll_events@[j]),
            decreases event_count - i,
        {
            let event = epoll_events[i];
            assert(event == epoll_events@[i as int]);
            events.push(Self::triggered_event(event));
            i += 1;
        }
        Waited::Done(events)
    }

    /// Reads the answer of epoll to a wait for a single event, which always reports one.
    pub fn wait_one<E>(&self, waited: Result<usize, E>, interrupted: bool, event: EpollEvent) -> (
        outcome: Waited<TriggeredEvent<T>, E>)
        requires
            waited matches Ok(event_count) ==> event_count == 1 && T::is_raw_token(event.data),
        ensures
            match waited {
                Ok(_) => outcome is Done && outcome->Done_0.is_report_of(event),
                Err(e) => outcome == if interrupted {
                    Waited::<TriggeredEvent<T>, E>::Again
                } else {
                    Waited::Failed(e)
                },
            },
    {
        match waited {
            Ok(_) => Waited::Done(Self::triggered_event(event)),
            Err(e) => if interrupted {
                Waited::Again
            } else {
                Waited::Failed(e)
            },
        }
    }
}

/// A token that was registered for a descriptor is the token that is read from a report about
/// that descriptor, whatever was reported of it.
pub proof fn lemma_token_comes_back<T: EventToken>(token: T, event: EpollEvent, triggered: TriggeredEvent<T>)
    requires
        token.is_token(),
        event.data == token.raw_token(),
        triggered.is_report_of(event),
    ensures
        T::is_raw_token(event.data),
        triggered.spec_token() == token,
{
    token.lemma_round_trip();
}

/// A descriptor can only be added once, and adding one leaves what the others are watched for as it
/// was.
pub proof fn lemma_added_once(
    interest: Map<i32, EpollEvent>,
    fd: i32,
    event_set: u32,
    data: u64,
    again: EpollRequest,
)
    requires
        !interest.dom().contains(fd),
        again.operation == ControlOperation::Add,
        again.fd == fd,
    ensures
        EpollRequest::add_fd(fd, event_set, data).applied(interest) is Some,
        ({
            let then = EpollRequest::add_fd(fd, event_set, data).applied(interest)->0;
            &&& again.applied(then) is None
            &&& forall|other: i32, event: EpollEvent|
                other != fd ==> #[trigger] can_report(then, other, event) == can_report(
                    interest,
                    other,
                    event,
                )
        }),
{
}

/// A descriptor that was added can be modified. From then on it is reported with the new token in
/// place of the old one, and only for the new events, errors and hangups, whatever it was watched
/// for before. What is reported of other descriptors stays as it was.
pub proof fn lemma_modify_replaces<T: EventToken>(
    interest: Map<i32, EpollEvent>,
    fd: i32,
    event_set: u32,
    token: T,
    event: EpollEvent,
    triggered: TriggeredEvent<T>,
)
    requires
        interest.dom().contains(fd),
        token.is_token(),
        triggered.is_report_of(event),
    ensures
        EpollRequest::modify_fd(fd, event_set, token.raw_token()).applied(interest) is Some,
        ({
            let then = EpollRequest::modify_fd(fd, event_set, token.raw_token()).applied(
                interest,
            )->0;
            &&& can_report(then, fd, event) ==> {
                &&& triggered.spec_token() == token
                &&& triggered.spec_readable() ==> crate::events::set::holds_events(
                    event_set,
                    crate::events::set::EVENT_IN,
                )
                &&& triggered.spec_writable() ==> crate::events::set::holds_events(
                    event_set,
                    crate::events::set::EVENT_OUT,
                )
            }
            &&& forall|other: i32, event: EpollEvent|
                other != fd ==> #[trigger] can_report(then, other, event) == can_report(
                    interest,
                    other,
                    event,
                )
        }),
{
    token.lemma_round_trip();
    let reported = event.events;
    assert(reported & !(event_set | 0x8 | 0x10) == 0 && (reported & 0xf000_201f) & 0x1 == 0x1
        ==> event_set & 0x1 == 0x1) by (bit_vector);
    assert(reported & !(event_set | 0x8 | 0x10) == 0 && (reported & 0xf000_201f) & 0x4 == 0x4
        ==> event_set & 0x4 == 0x4) by (bit_vector);
}

/// Nothing is reported of a descriptor that was deleted, and what is reported of the others stays as
/// it was.
pub proof fn lemma_deleted_is_not_reported(
    interest: Map<i32, EpollEvent>,
    fd: i32,
    other: i32,
    event: EpollEvent,
)
    requires
        interest.dom().contains(fd),
    ensures
        EpollRequest::delete_fd(fd).applied(interest) is Some,
        ({
            let then = EpollRequest::delete_fd(fd).applied(interest)->0;
            &&& !can_report(then, fd, event)
            &&& other != fd ==> can_report(then, other, event) == can_report(interest, other, event)
        }),
{
}

} // verus!
