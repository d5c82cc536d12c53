//! What a device asks of each of its queues.

use vstd::prelude::*;

verus! {

/// The size a device asks for when a queue is built for it.
#[derive(Debug, Clone, Copy)]
pub struct QueueArgs {
    max_size: u16,
}

impl QueueArgs {
    /// The largest number of entries the queue may hold.
    pub closed spec fn spec_max_size(&self) -> u16 {
        self.max_size
    }

    /// What is asked of a queue of at most `max_size` entries.
    pub closed spec fn of_size(max_size: u16) -> QueueArgs {
        QueueArgs { max_size }
    }

    /// Asks for a queue of at most `max_size` entries.
    pub fn new(max_size: u16) -> (args: QueueArgs)
        ensures
            args == QueueArgs::of_size(max_size),
            args.spec_max_size() == max_size,
    {
        QueueArgs { max_size }
    }

    /// The largest number of entries the queue may hold.
    pub fn max_size(&self) -> (max_size: u16)
        ensures
            max_size == self.spec_max_size(),
    {
        self.max_size
    }
}

} // verus!
