//! Inputs and outputs of ports.

use crate::events::manager::{ControlOperation, EpollEvent, EpollRequest, EventSource};
use crate::events::set::{event_edge_triggered, event_in, event_out};
use vstd::prelude::*;

verus! {

/// A descriptor becoming ready, as a source of events.
#[derive(Debug, Copy, Clone, PartialEq, Eq, Structural)]
pub struct PortEvent {
    fd: i32,
    events: u32,
}

impl PortEvent {
    /// The descriptor to watch.
    pub closed spec fn spec_fd(&self) -> i32 {
        self.fd
    }

    /// The events to watch it for.
    pub closed spec fn spec_events(&self) -> u32 {
        self.events
    }

    /// The given events of a descriptor.
    pub fn new(fd: i32, events: u32) -> (event: PortEvent)
        ensures
            event.spec_fd() == fd,
            event.spec_events() == events,
    {
        PortEvent { fd, events }
    }

    /// An input becoming readable. It is reported once, until the input was read empty.
    pub fn input_ready(fd: i32) -> (event: PortEvent)
        ensures
            event.spec_fd() == fd,
            event.spec_events() == crate::events::set::EVENT_IN
                | crate::events::set::EVENT_EDGE_TRIGGERED,
    {
        PortEvent::new(fd, event_in() | event_edge_triggered())
    }

    /// An output becoming writable. It is reported once, until the output was written full.
    pub fn output_ready(fd: i32) -> (event: PortEvent)
        ensures
            event.spec_fd() == fd,
            event.spec_events() == crate::events::set::EVENT_OUT
                | crate::events::set::EVENT_EDGE_TRIGGERED,
    {
        PortEvent::new(fd, event_out() | event_edge_triggered())
    }
}

impl EventSource for PortEvent {
    open spec fn registration(&self, token: u64) -> Option<EpollRequest> {
        Some(
            EpollRequest {
                operation: ControlOperation::Add,
                fd: self.spec_fd(),
                event: EpollEvent { events: self.spec_events(), data: token },
            },
        )
    }

    open spec fn removal(&self) -> Option<EpollRequest> {
        Some(
            EpollRequest {
                operation: ControlOperation::Delete,
                fd: self.spec_fd(),
                event: EpollEvent { events: self.spec_events(), data: 0 },
            },
        )
    }

    fn register_self(&self, token: u64) -> (request: Option<EpollRequest>) {
        Some(
            EpollRequest {
                operation: ControlOperation::Add,
                fd: self.fd,
                event: EpollEvent { events: self.events, data: token },
            },
        )
    }

    fn unregister_self(&self) -> (request: Option<EpollRequest>) {
        Some(
            EpollRequest {
                operation: ControlOperation::Delete,
                fd: self.fd,
                event: EpollEvent { events: self.events, data: 0 },
            },
        )
    }
}

/// How many bytes at the start of a buffer of `len` bytes may have changed after a read that
/// returned `bytes_read`. A failed read may have changed all of them, unless it failed because it
/// would have had to wait.
pub open spec fn dirty_len(bytes_read: isize, len: usize, would_block: bool) -> int {
    if bytes_read >= 0 {
        bytes_read as int
    } else if would_block {
        0
    } else {
        len as int
    }
}

/// What a read returned that the system reports as `bytes_read`: the number of bytes, or `None`
/// if it failed, and how many bytes of the buffer are then to be marked as changed.
pub fn read_volatile(bytes_read: isize, len: usize, would_block: bool) -> (outcome: (
    Option<usize>,
    usize,
))
    requires
        bytes_read <= len,
    ensures
        outcome.0 == (if bytes_read < 0 {
            None
        } else {
            Some(bytes_read as usize)
        }),
        outcome.1 == dirty_len(bytes_read, len, would_block),
{
    if bytes_read < 0 {
        if would_block {
            (None, 0)
        } else {
            (None, len)
        }
    } else {
        (Some(bytes_read as usize), bytes_read as usize)
    }
}

/// What to make of a read of an input into a buffer of the driver. Nothing to read yet counts as
/// nothing read, so that what was read before is not lost, and an empty read is the end of the
/// input.
pub fn read_to_desc<E>(read: Result<usize, E>, would_block: bool, eof: &mut bool) -> (result:
    Result<usize, E>)
    ensures
        match read {
            Ok(n) => result == Ok::<usize, E>(n) && *final(eof) == (*old(eof) || n == 0),
            Err(e) => {
                &&& result == if would_block {
                    Ok(0usize)
                } else {
                    Err(e)
                }
                &&& *final(eof) == *old(eof)
            },
        },
{
    match read {
        Ok(n) => {
            if n == 0 {
                *eof = true;
            }
            Ok(n)
        },
        Err(e) => if would_block {
            Ok(0)
        } else {
            Err(e)
        },
    }
}

/// How to go on after a write to an output.
#[derive(Debug)]
pub enum WriteStep<E> {
    /// The write is over.
    Done(Result<usize, E>),
    /// The write has to be repeated when the output is writable.
    WaitUntilWritable,
}

/// What to make of a write of a buffer of the driver to an output.
pub fn write_desc_to_output<E>(written: Result<usize, E>, would_block: bool) -> (step: WriteStep<E>)
    ensures
        step == (match written {
            Ok(n) => WriteStep::Done(Ok(n)),
            Err(e) => if would_block {
                WriteStep::WaitUntilWritable
            } else {
                WriteStep::Done(Err(e))
            },
        }),
{
    match written {
        Ok(n) => WriteStep::Done(Ok(n)),
        Err(e) => if would_block {
            WriteStep::WaitUntilWritable
        } else {
            WriteStep::Done(Err(e))
        },
    }
}

} // verus!
