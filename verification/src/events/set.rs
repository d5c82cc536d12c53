//! The epoll event masks of the `vmm_sys_util` crate, as plain bits.

use vmm_sys_util::epoll::EventSet;
use vstd::prelude::*;

verus! {

/// The descriptor can be read from.
pub const EVENT_IN: u32 = 0x1;

/// The descriptor can be written to.
pub const EVENT_OUT: u32 = 0x4;

/// The descriptor is in error. That is reported even if nobody asked for it.
pub const EVENT_ERROR: u32 = 0x8;

/// The peer hung up. That is reported even if nobody asked for it.
pub const EVENT_HANG_UP: u32 = 0x10;

/// The peer shut down its writing half.
pub const EVENT_READ_HANG_UP: u32 = 0x2000;

/// Events are reported once per change and not as long as they last.
pub const EVENT_EDGE_TRIGGERED: u32 = 0x8000_0000;

/// Every event that has a name.
pub const EVENT_ALL: u32 = 0xf000_201f;

/// The bits of [`EventSet::IN`].
#[verifier::external_body]
pub(crate) fn event_in() -> (bits: u32)
    ensures
        bits == EVENT_IN,
{
    EventSet::IN.bits()
}

/// The bits of [`EventSet::OUT`].
#[verifier::external_body]
pub(crate) fn event_out() -> (bits: u32)
    ensures
        bits == EVENT_OUT,
{
    EventSet::OUT.bits()
}

/// The bits of [`EventSet::HANG_UP`].
#[verifier::external_body]
pub(crate) fn event_hang_up() -> (bits: u32)
    ensures
        bits == EVENT_HANG_UP,
{
    EventSet::HANG_UP.bits()
}

/// The bits of [`EventSet::READ_HANG_UP`].
#[verifier::external_body]
pub(crate) fn event_read_hang_up() -> (bits: u32)
    ensures
        bits == EVENT_READ_HANG_UP,
{
    EventSet::READ_HANG_UP.bits()
}

/// The bits of [`EventSet::EDGE_TRIGGERED`].
#[verifier::external_body]
pub(crate) fn event_edge_triggered() -> (bits: u32)
    ensures
        bits == EVENT_EDGE_TRIGGERED,
{
    EventSet::EDGE_TRIGGERED.bits()
}

/// [`EventSet::from_bits_truncate`]: keeps the bits of the events that have a name and drops the
/// others.
#[verifier::external_body]
pub(crate) fn event_bits_truncate(bits: u32) -> (kept: u32)
    ensures
        kept == bits & EVENT_ALL,
{
    EventSet::from_bits_truncate(bits).bits()
}

/// Whether the mask `events` holds every bit of `wanted`.
pub open spec fn holds_events(events: u32, wanted: u32) -> bool {
    events & wanted == wanted
}

} // verus!
