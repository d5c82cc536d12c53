//! Stand-ins for queues, where a type is needed and no queue.

use std::marker::PhantomData;
use vstd::prelude::*;

verus! {

/// Stands in for a queue.
#[derive(Debug, Clone, Copy, PartialEq, Eq, Structural)]
pub struct MockDeviceQueue();

/// Stands in for the kick of a queue.
pub struct MockKickEvent<'a> {
    phantom: PhantomData<&'a MockDeviceQueue>,
}

} // verus!
