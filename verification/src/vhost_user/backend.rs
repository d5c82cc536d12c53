//! What a device offers to a vhost-user front-end.

use crate::virtio::queue_args::QueueArgs;
use crate::virtio::device::{DeviceError, VirtioDevice};
use crate::vhost_user::features::protocol_features_bit;
use std::collections::BTreeMap;
use vstd::prelude::*;

verus! {

/// A device that a vhost-user front-end can use.
pub trait VhostUserDevice: Sized {
    /// A queue as it is handed to the device.
    type Queue;

    /// A connection to the display of the front-end.
    type GpuSocket;

    /// Holds of every device that was made by a constructor and changed by the methods below.
    spec fn inv(&self) -> bool;

    /// The vhost-user protocol features the device offers.
    spec fn spec_protocol_features(&self) -> u64;

    /// The features the device offers.
    spec fn spec_avail_features(&self) -> u64;

    /// The features the driver has acknowledged.
    spec fn spec_acked_features(&self) -> u64;

    /// The queues the device wants to construct.
    spec fn spec_queues(&self) -> Seq<QueueArgs>;

    /// Whether `features` are such that they can be acknowledged.
    spec fn accepts_acked_features(&self, features: u64) -> bool;

    /// Whether a read of `len` bytes of the configuration space may start at `offset`.
    spec fn can_read_config(&self, offset: usize, len: nat) -> bool;

    /// What a read of the configuration space at `offset` makes of the buffer `data`, and what it
    /// returns.
    spec fn config_read(&self, offset: usize, data: Seq<u8>) -> (Seq<u8>, Result<(), DeviceError>);

    /// What acknowledging `features` does.
    spec fn features_acked(before: Self, features: u64, after: Self) -> bool;

    /// What writing `data` to the configuration space at `offset` does and returns.
    spec fn config_written(
        before: Self,
        offset: usize,
        data: Seq<u8>,
        after: Self,
        result: Result<(), DeviceError>,
    ) -> bool;

    /// Whether the device may be activated with `queues`.
    spec fn can_activate(&self, queues: Map<usize, Self::Queue>) -> bool;

    /// What activating the device with `queues` does and returns.
    spec fn activated(
        before: Self,
        queues: Map<usize, Self::Queue>,
        after: Self,
        result: Result<(), DeviceError>,
    ) -> bool;

    /// What stopping the device does.
    spec fn stopped(before: Self, after: Self) -> bool;

    /// Whether the device can be activated again once it is reset.
    spec fn supports_reset(&self) -> bool;

    /// What handing over a connection to the display does.
    spec fn gpu_socket_set(before: Self, socket: Self::GpuSocket, after: Self) -> bool;

    /// Get the available vhost-user protocol features.
    fn protocol_features(&self) -> (features: u64)
        requires
            self.inv(),
        ensures
            features == self.spec_protocol_features(),
    ;

    /// Get the available features offered by the device.
    fn avail_features(&self) -> (features: u64)
        requires
            self.inv(),
        ensures
            features == self.spec_avail_features(),
    ;

    /// Get the acknowledged features of the driver.
    fn acked_features(&self) -> (features: u64)
        requires
            self.inv(),
        ensures
            features == self.spec_acked_features(),
    ;

    /// Set the acknowledged features of the driver.
    fn set_acked_features(&mut self, acked_features: u64)
        requires
            old(self).inv(),
            old(self).accepts_acked_features(acked_features),
        ensures
            final(self).inv(),
            final(self).spec_avail_features() == old(self).spec_avail_features(),
            final(self).spec_protocol_features() == old(self).spec_protocol_features(),
            final(self).spec_queues() == old(self).spec_queues(),
            Self::features_acked(*old(self), acked_features, *final(self)),
    ;

    /// Returns the queues the device wants to construct.
    fn queues(&self) -> (queues: Vec<QueueArgs>)
        requires
            self.inv(),
        ensures
            queues@ == self.spec_queues(),
    ;

    /// Reads the configuration space of the device at `offset`.
    fn read_config(&self, offset: usize, data: &mut [u8]) -> (result: Result<(), DeviceError>)
        requires
            self.inv(),
            self.can_read_config(offset, old(data)@.len()),
        ensures
            (final(data)@, result) == self.config_read(offset, old(data)@),
    ;

    /// Writes to the configuration space of the device at `offset`.
    fn write_config(&mut self, offset: usize, data: &[u8]) -> (result: Result<(), DeviceError>)
        requires
            old(self).inv(),
        ensures
            final(self).inv(),
            final(self).spec_avail_features() == old(self).spec_avail_features(),
            final(self).spec_protocol_features() == old(self).spec_protocol_features(),
            final(self).spec_queues() == old(self).spec_queues(),
            Self::config_written(*old(self), offset, data@, *final(self), result),
    ;

    /// Activates the device. Upon activation the device can start workers to handle its queues.
    fn activate(&mut self, queues: BTreeMap<usize, Self::Queue>) -> (result: Result<
        (),
        DeviceError,
    >)
        requires
            old(self).inv(),
            old(self).can_activate(queues@),
        ensures
            final(self).inv(),
            final(self).spec_avail_features() == old(self).spec_avail_features(),
            final(self).spec_protocol_features() == old(self).spec_protocol_features(),
            final(self).spec_queues() == old(self).spec_queues(),
            Self::activated(*old(self), queues@, *final(self), result),
    ;

    /// Stops the workers of the device.
    fn stop(&mut self)
        requires
            old(self).inv(),
        ensures
            final(self).inv(),
            final(self).spec_avail_features() == old(self).spec_avail_features(),
            final(self).spec_protocol_features() == old(self).spec_protocol_features(),
            final(self).spec_queues() == old(self).spec_queues(),
            Self::stopped(*old(self), *final(self)),
    ;

    /// Stops the workers of the device and tells whether it supports being reset, meaning that it
    /// can be activated again.
    fn reset(&mut self) -> (supported: bool)
        requires
            old(self).inv(),
        ensures
            final(self).inv(),
            final(self).spec_avail_features() == old(self).spec_avail_features(),
            final(self).spec_protocol_features() == old(self).spec_protocol_features(),
            final(self).spec_queues() == old(self).spec_queues(),
            Self::stopped(*old(self), *final(self)),
            supported == old(self).supports_reset(),
    ;

    /// Hands over a connection to the display of the front-end.
    fn set_gpu_socket(&mut self, gpu_socket: Self::GpuSocket)
        requires
            old(self).inv(),
        ensures
            final(self).inv(),
            final(self).spec_avail_features() == old(self).spec_avail_features(),
            final(self).spec_protocol_features() == old(self).spec_protocol_features(),
            final(self).spec_queues() == old(self).spec_queues(),
            Self::gpu_socket_set(*old(self), gpu_socket, *final(self)),
    ;
}

/// Delegates the methods of [`VhostUserDevice`] to a [`VirtioDevice`], to which it adds what is
/// special to vhost-user.
pub trait VhostUserDeviceImplementer: Sized {
    /// A queue as it is handed to the device.
    type Queue;

    /// A connection to the display of the front-end.
    type GpuSocket;

    /// The device to delegate to.
    type Device: VirtioDevice<Self::Queue>;

    /// The device to delegate to.
    spec fn spec_device(&self) -> Self::Device;

    /// The vhost-user protocol features the device offers.
    spec fn implemented_protocol_features() -> u64;

    /// What handing over a connection to the display does to the device.
    spec fn display_connected(
        before: Self::Device,
        socket: Self::GpuSocket,
        after: Self::Device,
    ) -> bool;

    /// The device to delegate to.
    fn device(&self) -> (device: &Self::Device)
        ensures
            *device == self.spec_device(),
    ;

    /// The device to delegate to, to be changed.
    fn device_mut(&mut self) -> (device: &mut Self::Device)
        ensures
            *device == old(self).spec_device(),
            final(self).spec_device() == *final(device),
    ;

    /// Get the available vhost-user protocol features.
    fn offered_protocol_features(&self) -> (features: u64)
        ensures
            features == Self::implemented_protocol_features(),
    ;

    /// Hands over a connection to the display of the front-end. A device without a display takes
    /// no notice of it.
    fn connect_display(&mut self, gpu_socket: Self::GpuSocket)
        requires
            old(self).spec_device().inv(),
        ensures
            final(self).spec_device().inv(),
            final(self).spec_device().spec_avail_features() == old(
                self,
            ).spec_device().spec_avail_features(),
            final(self).spec_device().spec_queues() == old(self).spec_device().spec_queues(),
            Self::display_connected(
                old(self).spec_device(),
                gpu_socket,
                final(self).spec_device(),
            ),
    ;
}

impl<I: VhostUserDeviceImplementer> VhostUserDevice for I {
    type Queue = I::Queue;

    type GpuSocket = I::GpuSocket;

    open spec fn inv(&self) -> bool {
        self.spec_device().inv()
    }

    open spec fn spec_protocol_features(&self) -> u64 {
        I::implemented_protocol_features()
    }

    open spec fn spec_avail_features(&self) -> u64 {
        self.spec_device().spec_avail_features() | crate::vhost_user::features::PROTOCOL_FEATURES
    }

    open spec fn spec_acked_features(&self) -> u64 {
        self.spec_device().spec_acked_features() | crate::vhost_user::features::PROTOCOL_FEATURES
    }

    open spec fn spec_queues(&self) -> Seq<QueueArgs> {
        self.spec_device().spec_queues()
    }

    open spec fn accepts_acked_features(&self, features: u64) -> bool {
        features & crate::vhost_user::features::PROTOCOL_FEATURES
            == crate::vhost_user::features::PROTOCOL_FEATURES
    }

    open spec fn can_read_config(&self, offset: usize, len: nat) -> bool {
        self.spec_device().can_read_config(offset, len)
    }

    open spec fn config_read(&self, offset: usize, data: Seq<u8>) -> (
        Seq<u8>,
        Result<(), DeviceError>,
    ) {
        self.spec_device().config_read(offset, data)
    }

    open spec fn features_acked(before: Self, features: u64, after: Self) -> bool {
        I::Device::features_acked(
            before.spec_device(),
            features ^ crate::vhost_user::features::PROTOCOL_FEATURES,
            after.spec_device(),
        )
    }

    open spec fn config_written(
        before: Self,
        offset: usize,
        data: Seq<u8>,
        after: Self,
        result: Result<(), DeviceError>,
    ) -> bool {
        I::Device::config_written(before.spec_device(), offset, data, after.spec_device(), result)
    }

    open spec fn can_activate(&self, queues: Map<usize, I::Queue>) -> bool {
        self.spec_device().can_activate(queues)
    }

    open spec fn activated(
        before: Self,
        queues: Map<usize, I::Queue>,
        after: Self,
        result: Result<(), DeviceError>,
    ) -> bool {
        I::Device::activated(before.spec_device(), queues, after.spec_device(), result)
    }

    open spec fn stopped(before: Self, after: Self) -> bool {
        I::Device::stopped(before.spec_device(), after.spec_device())
    }

    open spec fn supports_reset(&self) -> bool {
        self.spec_device().supports_reset()
    }

    open spec fn gpu_socket_set(before: Self, socket: I::GpuSocket, after: Self) -> bool {
        I::display_connected(before.spec_device(), socket, after.spec_device())
    }

    fn protocol_features(&self) -> (features: u64) {
        self.offered_protocol_features()
    }

    fn avail_features(&self) -> (features: u64) {
        self.device().avail_features() | protocol_features_bit()
    }

    fn acked_features(&self) -> (features: u64) {
        self.device().acked_features() | protocol_features_bit()
    }

    fn set_acked_features(&mut self, acked_features: u64) {
        let features: u64 = acked_features ^ protocol_features_bit();
        self.device_mut().set_acked_features(features);
    }

    fn queues(&self) -> (queues: Vec<QueueArgs>) {
        self.device().queues()
    }

    fn read_config(&self, offset: usize, data: &mut [u8]) -> (result: Result<(), DeviceError>) {
        self.device().read_config(offset, data)
    }

    fn write_config(&mut self, offset: usize, data: &[u8]) -> (result: Result<(), DeviceError>) {
        self.device_mut().write_config(offset, data)
    }

    fn activate(&mut self, queues: BTreeMap<usize, I::Queue>) -> (result: Result<
        (),
        DeviceError,
    >) {
        self.device_mut().activate(queues)
    }

    fn stop(&mut self) {
        self.device_mut().stop()
    }

    fn reset(&mut self) -> (supported: bool) {
        self.device_mut().reset()
    }

    fn set_gpu_socket(&mut self, gpu_socket: I::GpuSocket) {
        self.connect_display(gpu_socket)
    }
}

/// No feature is acknowledged that is not available, the one for protocol features included.
pub proof fn lemma_acked_are_available<I: VhostUserDeviceImplementer>(implementer: I)
    requires
        VhostUserDevice::inv(&implementer),
    ensures
        VhostUserDevice::spec_avail_features(&implementer) & VhostUserDevice::spec_acked_features(
            &implementer,
        ) == VhostUserDevice::spec_acked_features(&implementer),
{
    let device = implementer.spec_device();
    device.lemma_acked_are_available();
    let available = device.spec_avail_features();
    let acked = device.spec_acked_features();
    let bit = crate::vhost_user::features::PROTOCOL_FEATURES;
    assert((available | bit) & (acked | bit) == (acked | bit)) by (bit_vector)
        requires
            available & acked == acked,
    ;
}

} // verus!
