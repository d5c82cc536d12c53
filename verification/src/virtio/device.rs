//! What a virtio device offers to whatever transports it to a guest.

use crate::virtio::queue_args::QueueArgs;
use std::collections::BTreeMap;
use vstd::prelude::*;

verus! {

/// Why a device refused a request.
#[derive(Debug, Clone, Copy, PartialEq, Eq, Structural)]
pub enum DeviceError {
    /// The configuration space does not reach to the offset.
    InvalidOffset,
    /// The configuration space cannot be read with this length.
    InvalidLength,
    /// The configuration space cannot be written.
    ConfigWriteUnsupported,
    /// The device was activated without one of its queues.
    MissingControlQueue,
    /// The device was activated before it was given a connection to the display.
    MissingGpuBackend,
}

/// A virtio device whose queues are handed over as values of the type `Q`.
pub trait VirtioDevice<Q>: Sized {
    /// Holds of every device that was made by a constructor and changed by the methods below.
    spec fn inv(&self) -> bool;

    /// The features the device offers.
    spec fn spec_avail_features(&self) -> u64;

    /// The features the driver has acknowledged.
    spec fn spec_acked_features(&self) -> u64;

    /// The queues the device wants to construct.
    spec fn spec_queues(&self) -> Seq<QueueArgs>;

    /// Whether a read of `len` bytes of the configuration space may start at `offset`.
    spec fn can_read_config(&self, offset: usize, len: nat) -> bool;

    /// What a read of the configuration space at `offset` makes of the buffer `data`, and what it
    /// returns.
    spec fn config_read(&self, offset: usize, data: Seq<u8>) -> (Seq<u8>, Result<(), DeviceError>);

    /// What acknowledging `features` does.
    spec fn features_acked(before: Self, features: u64, after: Self) -> bool;

    /// What writing `data` to the configuration space at `offset` does and returns.
    spec fn config_written(
        before: Self,
        offset: usize,
        data: Seq<u8>,
        after: Self,
        result: Result<(), DeviceError>,
    ) -> bool;

    /// Whether the device may be activated with `queues`.
    spec fn can_activate(&self, queues: Map<usize, Q>) -> bool;

    /// What activating the device with `queues` does and returns.
    spec fn activated(
        before: Self,
        queues: Map<usize, Q>,
        after: Self,
        result: Result<(), DeviceError>,
    ) -> bool;

    /// What stopping the device does.
    spec fn stopped(before: Self, after: Self) -> bool;

    /// Whether the device can be activated again once it is reset.
    spec fn supports_reset(&self) -> bool;

    /// No feature is acknowledged that is not offered.
    proof fn lemma_acked_are_available(&self)
        requires
            self.inv(),
        ensures
            self.spec_avail_features() & self.spec_acked_features() == self.spec_acked_features(),
    ;

    /// Get the available features offered by the device.
    fn avail_features(&self) -> (features: u64)
        requires
            self.inv(),
        ensures
            features == self.spec_avail_features(),
    ;

    /// Get the acknowledged features of the driver.
    fn acked_features(&self) -> (features: u64)
        requires
            self.inv(),
        ensures
            features == self.spec_acked_features(),
    ;

    /// Set the acknowledged features of the driver. Those that are not available are left out.
    fn set_acked_features(&mut self, acked_features: u64)
        requires
            old(self).inv(),
        ensures
            final(self).inv(),
            final(self).spec_avail_features() == old(self).spec_avail_features(),
            final(self).spec_queues() == old(self).spec_queues(),
            Self::features_acked(*old(self), acked_features, *final(self)),
    ;

    /// Returns the queues the device wants to construct.
    fn queues(&self) -> (queues: Vec<QueueArgs>)
        requires
            self.inv(),
        ensures
            queues@ == self.spec_queues(),
    ;

    /// Reads the configuration space of the device at `offset`.
    fn read_config(&self, offset: usize, data: &mut [u8]) -> (result: Result<(), DeviceError>)
        requires
            self.inv(),
            self.can_read_config(offset, old(data)@.len()),
        ensures
            (final(data)@, result) == self.config_read(offset, old(data)@),
    ;

    /// Writes to the configuration space of the device at `offset`.
    fn write_config(&mut self, offset: usize, data: &[u8]) -> (result: Result<(), DeviceError>)
        requires
            old(self).inv(),
        ensures
            final(self).inv(),
            final(self).spec_avail_features() == old(self).spec_avail_features(),
            final(self).spec_acked_features() == old(self).spec_acked_features(),
            final(self).spec_queues() == old(self).spec_queues(),
            Self::config_written(*old(self), offset, data@, *final(self), result),
    ;

    /// Told when the memory of the guest has changed during operation. A device that needs no
    /// notice does nothing.
    fn update_memory(&mut self) -> (result: Result<(), DeviceError>)
        requires
            old(self).inv(),
        ensures
            final(self).inv(),
        default_ensures
            result is Ok,
            *final(self) == *old(self),
    {
        Ok(())
    }

    /// Activates the device. Upon activation the device can start workers to handle its queues.
    fn activate(&mut self, queues: BTreeMap<usize, Q>) -> (result: Result<(), DeviceError>)
        requires
            old(self).inv(),
            old(self).can_activate(queues@),
        ensures
            final(self).inv(),
            final(self).spec_avail_features() == old(self).spec_avail_features(),
            final(self).spec_acked_features() == old(self).spec_acked_features(),
            final(self).spec_queues() == old(self).spec_queues(),
            Self::activated(*old(self), queues@, *final(self), result),
    ;

    /// Stops the workers of the device.
    fn stop(&mut self)
        requires
            old(self).inv(),
        ensures
            final(self).inv(),
            final(self).spec_avail_features() == old(self).spec_avail_features(),
            final(self).spec_acked_features() == old(self).spec_acked_features(),
            final(self).spec_queues() == old(self).spec_queues(),
            Self::stopped(*old(self), *final(self)),
    ;

    /// Stops the workers of the device and tells whether it supports being reset, meaning that it
    /// can be activated again.
    fn reset(&mut self) -> (supported: bool)
        requires
            old(self).inv(),
        ensures
            final(self).inv(),
            final(self).spec_avail_features() == old(self).spec_avail_features(),
            final(self).spec_acked_features() == old(self).spec_acked_features(),
            final(self).spec_queues() == old(self).spec_queues(),
            Self::stopped(*old(self), *final(self)),
            supported == old(self).supports_reset(),
    ;
}

} // verus!
