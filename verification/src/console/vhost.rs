//! The console device as a vhost-user back-end.

use crate::vhost_user::backend::{VhostUserDevice, VhostUserDeviceImplementer};
use crate::console::device::Console;
use crate::vhost_user::features::{protocol_config, protocol_mq, protocol_reply_ack};
use vstd::prelude::*;

verus! {

/// The protocol features of the back-end: several queues, the configuration space and replies.
pub const PROTOCOL_FEATURES: u64 = 0x209;

/// The console device as a vhost-user back-end.
pub struct VhostUserConsole<I, O, Q> {
    device: Console<I, O, Q>,
}

impl<I, O, Q> VhostUserConsole<I, O, Q> {
    /// Serves the given device.
    pub fn new(device: Console<I, O, Q>) -> (backend: Self)
        ensures
            backend.spec_device() == device,
    {
        VhostUserConsole { device }
    }
}

impl<I, O, Q> VhostUserDeviceImplementer for VhostUserConsole<I, O, Q> {
    type Queue = Q;

    type GpuSocket = ();

    type Device = Console<I, O, Q>;

    closed spec fn spec_device(&self) -> Console<I, O, Q> {
        self.device
    }

    open spec fn implemented_protocol_features() -> u64 {
        PROTOCOL_FEATURES
    }

    open spec fn display_connected(
        before: Console<I, O, Q>,
        socket: (),
        after: Console<I, O, Q>,
    ) -> bool {
        after == before
    }

    fn device(&self) -> (device: &Console<I, O, Q>) {
        &self.device
    }

    fn device_mut(&mut self) -> (device: &mut Console<I, O, Q>) {
        &mut self.device
    }

    fn offered_protocol_features(&self) -> (features: u64) {
        assert(0x1u64 | 0x200u64 | 0x8u64 == 0x209u64) by (bit_vector);
        protocol_mq() | protocol_config() | protocol_reply_ack()
    }

    fn connect_display(&mut self, gpu_socket: ()) {
    }
}

/// Features that are offered and acknowledged read back as they were acknowledged.
pub proof fn lemma_acked_features_read_back<I, O, Q>(
    before: VhostUserConsole<I, O, Q>,
    features: u64,
    after: VhostUserConsole<I, O, Q>,
)
    requires
        VhostUserDevice::inv(&before),
        VhostUserDevice::accepts_acked_features(&before, features),
        features & !VhostUserDevice::spec_avail_features(&before) == 0,
        <VhostUserConsole<I, O, Q> as VhostUserDevice>::features_acked(before, features, after),
    ensures
        VhostUserDevice::spec_acked_features(&after) == features,
{
    let available = crate::console::device::AVAIL_FEATURES;
    let bit = crate::vhost_user::features::PROTOCOL_FEATURES;
    assert((available & (features ^ bit)) | bit == features) by (bit_vector)
        requires
            features & bit == bit,
            features & !(available | bit) == 0,
    ;
}

} // verus!
