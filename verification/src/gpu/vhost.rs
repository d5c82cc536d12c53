//! The GPU device as a vhost-user back-end.

use crate::vhost_user::backend::{VhostUserDevice, VhostUserDeviceImplementer};
use crate::gpu::device::{GpuDevice, GpuError, GpuView};
use crate::vhost_user::features::{
    protocol_backend_send_fd, protocol_config, protocol_mq, protocol_reply_ack,
};
use vstd::prelude::*;

verus! {

/// Why the back-end ended.
#[derive(Debug)]
pub enum StartError<E> {
    /// Could not create the back-end.
    CouldNotCreateBackend(GpuError<E>),
    /// Could not create the daemon.
    CouldNotCreateDaemon(E),
    /// Serving a front-end failed.
    ServeFailed(E),
}

/// How far the back-end has come.
#[derive(Debug)]
pub enum StartStage<E> {
    /// The device was made.
    BackendCreated(Result<(), GpuError<E>>),
    /// The daemon was made.
    DaemonCreated(Result<(), E>),
    /// The daemon has served a front-end.
    Served(Result<(), E>),
}

/// What is reported of a stage: nothing as long as all goes well.
pub fn start_backend<E>(stage: StartStage<E>) -> (result: Result<(), StartError<E>>)
    ensures
        match stage {
            StartStage::BackendCreated(Err(e)) => result == Err::<(), StartError<E>>(
                StartError::CouldNotCreateBackend(e),
            ),
            StartStage::DaemonCreated(Err(e)) => result == Err::<(), StartError<E>>(
                StartError::CouldNotCreateDaemon(e),
            ),
            StartStage::Served(Err(e)) => result == Err::<(), StartError<E>>(
                StartError::ServeFailed(e),
            ),
            _ => result is Ok,
        },
{
    match stage {
        StartStage::BackendCreated(Err(e)) => Err(StartError::CouldNotCreateBackend(e)),
        StartStage::DaemonCreated(Err(e)) => Err(StartError::CouldNotCreateDaemon(e)),
        StartStage::Served(Err(e)) => Err(StartError::ServeFailed(e)),
        _ => Ok(()),
    }
}

/// The protocol features of the back-end: several queues, the configuration space, replies, and
/// descriptors sent to the front-end.
pub const PROTOCOL_FEATURES: u64 = 0x609;

/// The GPU device as a vhost-user back-end.
pub struct VhostUserGpuBackend<S, Q> {
    device: GpuDevice<S, Q>,
}

impl<S, Q> VhostUserGpuBackend<S, Q> {
    /// Serves the given device.
    pub fn new(device: GpuDevice<S, Q>) -> (backend: Self)
        ensures
            backend.spec_device() == device,
    {
        VhostUserGpuBackend { device }
    }
}

impl<S, Q> VhostUserDeviceImplementer for VhostUserGpuBackend<S, Q> {
    type Queue = Q;

    type GpuSocket = S;

    type Device = GpuDevice<S, Q>;

    closed spec fn spec_device(&self) -> GpuDevice<S, Q> {
        self.device
    }

    open spec fn implemented_protocol_features() -> u64 {
        PROTOCOL_FEATURES
    }

    open spec fn display_connected(
        before: GpuDevice<S, Q>,
        socket: S,
        after: GpuDevice<S, Q>,
    ) -> bool {
        after@ == GpuView { gpu_backend: Some(socket), ..before@ }
    }

    fn device(&self) -> (device: &GpuDevice<S, Q>) {
        &self.device
    }

    fn device_mut(&mut self) -> (device: &mut GpuDevice<S, Q>) {
        &mut self.device
    }

    fn offered_protocol_features(&self) -> (features: u64) {
        assert(0x1u64 | 0x200u64 | 0x8u64 | 0x400u64 == 0x609u64) by (bit_vector);
        protocol_mq() | protocol_config() | protocol_reply_ack() | protocol_backend_send_fd()
    }

    fn connect_display(&mut self, gpu_socket: S) {
        self.device.set_gpu_socket(gpu_socket);
    }
}

/// Features that are offered and acknowledged read back as they were acknowledged.
pub proof fn lemma_acked_features_read_back<S, Q>(
    before: VhostUserGpuBackend<S, Q>,
    features: u64,
    after: VhostUserGpuBackend<S, Q>,
)
    requires
        VhostUserDevice::inv(&before),
        VhostUserDevice::accepts_acked_features(&before, features),
        features & !VhostUserDevice::spec_avail_features(&before) == 0,
        <VhostUserGpuBackend<S, Q> as VhostUserDevice>::features_acked(before, features, after),
    ensures
        VhostUserDevice::spec_acked_features(&after) == features,
{
    let available = crate::gpu::device::AVAIL_FEATURES;
    let bit = crate::vhost_user::features::PROTOCOL_FEATURES;
    assert(((features ^ bit) & available) | bit == features) by (bit_vector)
        requires
            features & bit == bit,
            features & !(available | bit) == 0,
    ;
}

} // verus!
