//! A virtqueue together with the notifications about it.

use virtio_queue::Queue;
use vstd::prelude::*;

verus! {

/// What a read of the kick descriptor gave.
#[derive(Debug)]
pub enum KickRead<E> {
    /// There is no kick descriptor to read.
    NoEvent,
    /// The counter was read and reset.
    Count(u64),
    /// There was no kick.
    WouldBlock,
    /// Reading failed.
    Failed(E),
}

/// A virtqueue along with notification mechanisms, for receiving and sending notifications
/// related to that queue.
pub trait DeviceQueue: Sized {
    /// Whether the device may process the queue.
    spec fn processable(&self) -> bool;

    /// Whether the queue is enabled.
    spec fn enabled(&self) -> bool;

    /// The descriptor through which the driver is told of used descriptors.
    spec fn call_fd(&self) -> Option<i32>;

    /// The queue itself.
    spec fn queue(&self) -> Queue;

    /// Gives access to the queue for processing, or `None` if the queue is not ready to be
    /// processed.
    ///
    /// In general a device waits for a kick to process the queue, but it can also wait for other
    /// events. In that case the queue may not be ready when the event comes, and the device has to
    /// wait for a kick to go on.
    fn try_lock_queue(&mut self) -> (queue: Option<&mut Queue>)
        ensures
            queue is Some <==> old(self).processable(),
            match queue {
                Some(q) => *q == old(self).queue() && final(self).queue() == *final(q),
                None => *final(self) == *old(self),
            },
    ;

    /// The descriptor to write 1 to, to notify the driver that used descriptors have been put into
    /// the used ring, or `None` if the driver did not ask to be notified.
    fn signal_used_queue(&self) -> (fd: Option<i32>)
        ensures
            fd == self.call_fd(),
    ;

    /// Takes note of what a read of the kick descriptor gave, and tells whether the queue is
    /// enabled and can be processed. A missing kick is no reason not to process the queue.
    fn read_kick<E>(&self, kick: KickRead<E>) -> (result: Result<bool, E>)
        ensures
            result == (match kick {
                KickRead::Failed(e) => Err(e),
                _ => Ok(self.enabled()),
            }),
    ;
}

} // verus!
