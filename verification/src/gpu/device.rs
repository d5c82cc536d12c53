//! The GPU device.

use crate::gpu::config::GpuConfig;
use crate::virtio::le_bytes::push_u32;
use crate::virtio::queue_args::QueueArgs;
use crate::vhost_user::features::ring_f_event_idx;
use crate::virtio::device::{DeviceError, VirtioDevice};
use std::collections::BTreeMap;
use virtio_bindings::virtio_config::{
    VIRTIO_F_NOTIFY_ON_EMPTY, VIRTIO_F_RING_RESET, VIRTIO_F_VERSION_1,
};
use virtio_bindings::virtio_gpu::{
    VIRTIO_GPU_F_CONTEXT_INIT, VIRTIO_GPU_F_EDID, VIRTIO_GPU_F_RESOURCE_BLOB, VIRTIO_GPU_F_VIRGL,
};
use virtio_bindings::virtio_ring::VIRTIO_RING_F_INDIRECT_DESC;
use vstd::prelude::*;

verus! {

/// Feature bit: the device conforms to version 1.0 of virtio.
pub const F_VERSION_1: u32 = 32;

/// Feature bit: queues can be reset one by one.
pub const F_RING_RESET: u32 = 40;

/// Feature bit: the driver is notified when a queue runs empty.
pub const F_NOTIFY_ON_EMPTY: u32 = 24;

/// Feature bit: descriptors can refer to tables of descriptors.
pub const F_INDIRECT_DESC: u32 = 28;

/// Feature bit: the device renders in three dimensions.
pub const F_VIRGL: u32 = 0;

/// Feature bit: the device describes its displays.
pub const F_EDID: u32 = 1;

/// Feature bit: resources can be blobs.
pub const F_RESOURCE_BLOB: u32 = 3;

/// Feature bit: contexts can be of several kinds.
pub const F_CONTEXT_INIT: u32 = 4;

/// The value of [`VIRTIO_F_VERSION_1`].
#[verifier::external_body]
fn f_version_1() -> (position: u32)
    ensures
        position == F_VERSION_1,
{
    VIRTIO_F_VERSION_1
}

/// The value of [`VIRTIO_F_RING_RESET`].
#[verifier::external_body]
fn f_ring_reset() -> (position: u32)
    ensures
        position == F_RING_RESET,
{
    VIRTIO_F_RING_RESET
}

/// The value of [`VIRTIO_F_NOTIFY_ON_EMPTY`].
#[verifier::external_body]
fn f_notify_on_empty() -> (position: u32)
    ensures
        position == F_NOTIFY_ON_EMPTY,
{
    VIRTIO_F_NOTIFY_ON_EMPTY
}

/// The value of [`VIRTIO_RING_F_INDIRECT_DESC`].
#[verifier::external_body]
fn ring_f_indirect_desc() -> (position: u32)
    ensures
        position == F_INDIRECT_DESC,
{
    VIRTIO_RING_F_INDIRECT_DESC
}

/// The value of [`VIRTIO_GPU_F_VIRGL`].
#[verifier::external_body]
fn gpu_f_virgl() -> (position: u32)
    ensures
        position == F_VIRGL,
{
    VIRTIO_GPU_F_VIRGL
}

/// The value of [`VIRTIO_GPU_F_EDID`].
#[verifier::external_body]
fn gpu_f_edid() -> (position: u32)
    ensures
        position == F_EDID,
{
    VIRTIO_GPU_F_EDID
}

/// The value of [`VIRTIO_GPU_F_RESOURCE_BLOB`].
#[verifier::external_body]
fn gpu_f_resource_blob() -> (position: u32)
    ensures
        position == F_RESOURCE_BLOB,
{
    VIRTIO_GPU_F_RESOURCE_BLOB
}

/// The value of [`VIRTIO_GPU_F_CONTEXT_INIT`].
#[verifier::external_body]
fn gpu_f_context_init() -> (position: u32)
    ensures
        position == F_CONTEXT_INIT,
{
    VIRTIO_GPU_F_CONTEXT_INIT
}

/// The features the device offers.
pub const AVAIL_FEATURES: u64 = 0x0101_3100_001b;

/// The largest number of displays.
pub const VIRTIO_GPU_MAX_SCANOUTS: u32 = 16;

/// The number of bytes of the configuration space.
pub const CONFIG_SIZE: usize = 16;

/// The queue for commands.
pub const CONTROL_QUEUE: usize = 0;

/// The queue for commands about the cursor.
pub const CURSOR_QUEUE: usize = 1;

/// The number of entries of each queue.
pub const QUEUE_SIZE: u16 = 256;

/// Why the device failed. The type `E` is that of errors of the system and of outside libraries.
#[derive(Debug)]
pub enum GpuError<E> {
    /// Failed to handle event, didn't match EPOLLIN.
    HandleEventNotEpollIn,
    /// Failed to handle unknown event.
    HandleEventUnknown,
    /// Descriptor read failed.
    DescriptorReadFailed,
    /// Descriptor write failed.
    DescriptorWriteFailed,
    /// Invalid command type.
    InvalidCommandType(u32),
    /// Failed to send used queue notification.
    NotificationFailed(E),
    /// Failed to create new event descriptor.
    EventFdFailed,
    /// Failed to create an iterator over a descriptor chain.
    CreateIteratorDescChain(E),
    /// Failed to create descriptor chain reader.
    CreateReader(E),
    /// Failed to create descriptor chain writer.
    CreateWriter(E),
    /// Failed to decode command.
    GpuCommandDecode(E),
    /// Failed to encode response.
    GpuResponseEncode(E),
    /// Failed to add used chain to queue.
    QueueAddUsed(E),
    /// Epoll handler not available.
    EpollHandler(String),
    /// Failed to register epoll listener.
    RegisterEpollListener(E),
}

/// The configuration space.
#[derive(Copy, Clone, Debug, PartialEq, Eq, Structural)]
pub struct VirtioGpuConfig {
    /// Events for the driver.
    pub events_read: u32,
    /// Events the driver has seen.
    pub events_clear: u32,
    /// The largest number of displays.
    pub num_scanouts: u32,
    /// The number of ways to talk to the renderer.
    pub num_capsets: u32,
}

impl VirtioGpuConfig {
    /// The bytes of the configuration space.
    pub open spec fn spec_bytes(&self) -> Seq<u8> {
        crate::virtio::le_bytes::le_bytes(self.events_read as nat, 4) + crate::virtio::le_bytes::le_bytes(
            self.events_clear as nat,
            4,
        ) + crate::virtio::le_bytes::le_bytes(self.num_scanouts as nat, 4) + crate::virtio::le_bytes::le_bytes(
            self.num_capsets as nat,
            4,
        )
    }

    /// The bytes of the configuration space.
    pub fn to_bytes(&self) -> (bytes: Vec<u8>)
        ensures
            bytes@ == self.spec_bytes(),
            bytes@.len() == CONFIG_SIZE,
    {
        proof {
            crate::virtio::le_bytes::lemma_le_bytes_len(self.events_read as nat, 4);
            crate::virtio::le_bytes::lemma_le_bytes_len(self.events_clear as nat, 4);
            crate::virtio::le_bytes::lemma_le_bytes_len(self.num_scanouts as nat, 4);
            crate::virtio::le_bytes::lemma_le_bytes_len(self.num_capsets as nat, 4);
        }
        let mut bytes: Vec<u8> = Vec::new();
        push_u32(&mut bytes, self.events_read);
        push_u32(&mut bytes, self.events_clear);
        push_u32(&mut bytes, self.num_scanouts);
        push_u32(&mut bytes, self.num_capsets);
        assert(bytes@ =~= self.spec_bytes());
        bytes
    }
}

/// What a worker needs to start.
pub struct GpuStart<S, Q> {
    /// The queue for commands.
    pub control_queue: Q,
    /// The queue for commands about the cursor.
    pub cursor_queue: Q,
    /// The connection to the display.
    pub gpu_backend: S,
    /// How the device is set up.
    pub gpu_config: GpuConfig,
}

/// A GPU that shows its displays through a connection of the type `S`.
pub struct GpuDevice<S, Q> {
    virtio_cfg: VirtioGpuConfig,
    acked_features: u64,
    worker: Option<GpuStart<S, Q>>,
    worker_active: bool,
    gpu_backend: Option<S>,
    gpu_config: GpuConfig,
}

/// The state of a GPU.
pub struct GpuView<S, Q> {
    /// The configuration space.
    pub virtio_cfg: VirtioGpuConfig,
    /// The features the driver has acknowledged.
    pub acked_features: u64,
    /// What the worker needs, from an activation until it is started.
    pub worker: Option<GpuStart<S, Q>>,
    /// Whether there is a worker to be started, or that runs.
    pub worker_active: bool,
    /// The connection to the display, until the device is activated.
    pub gpu_backend: Option<S>,
    /// How the device is set up.
    pub gpu_config: GpuConfig,
}

impl<S, Q> GpuView<S, Q> {
    /// Whether the device can be activated, and if not, why.
    pub open spec fn activation(self, queues: Map<usize, Q>) -> Result<(), DeviceError> {
        if !queues.dom().contains(CONTROL_QUEUE) || !queues.dom().contains(CURSOR_QUEUE) {
            Err(DeviceError::MissingControlQueue)
        } else if self.gpu_backend is None {
            Err(DeviceError::MissingGpuBackend)
        } else {
            Ok(())
        }
    }

    /// The state after the device was activated. The connection to the display goes to the worker.
    pub open spec fn activated(self, queues: Map<usize, Q>) -> GpuView<S, Q> {
        if self.activation(queues) is Ok {
            GpuView {
                worker: Some(
                    GpuStart {
                        control_queue: queues[CONTROL_QUEUE],
                        cursor_queue: queues[CURSOR_QUEUE],
                        gpu_backend: self.gpu_backend->0,
                        gpu_config: self.gpu_config,
                    },
                ),
                worker_active: true,
                gpu_backend: None,
                ..self
            }
        } else {
            self
        }
    }

    /// The state after the worker was stopped.
    pub open spec fn stopped(self) -> GpuView<S, Q> {
        GpuView { worker: None, worker_active: false, ..self }
    }
}

impl<S, Q> View for GpuDevice<S, Q> {
    type V = GpuView<S, Q>;

    closed spec fn view(&self) -> GpuView<S, Q> {
        GpuView {
            virtio_cfg: self.virtio_cfg,
            acked_features: self.acked_features,
            worker: self.worker,
            worker_active: self.worker_active,
            gpu_backend: self.gpu_backend,
            gpu_config: self.gpu_config,
        }
    }
}

impl<S, Q> GpuDevice<S, Q> {
    /// A device that is not connected to a display yet.
    pub fn new(gpu_config: GpuConfig) -> (device: GpuDevice<S, Q>)
        ensures
            device.inv(),
            device@ == (GpuView::<S, Q> {
                virtio_cfg: VirtioGpuConfig {
                    events_read: 0,
                    events_clear: 0,
                    num_scanouts: VIRTIO_GPU_MAX_SCANOUTS,
                    num_capsets: gpu_config.spec_capsets().spec_names().len() as u32,
                },
                acked_features: 0,
                worker: None,
                worker_active: false,
                gpu_backend: None,
                gpu_config,
            }),
    {
        proof {
            let available = AVAIL_FEATURES;
            assert(available & 0 == 0) by (bit_vector);
        }
        GpuDevice {
            virtio_cfg: VirtioGpuConfig {
                events_read: 0,
                events_clear: 0,
                num_scanouts: VIRTIO_GPU_MAX_SCANOUTS,
                num_capsets: gpu_config.capsets().num_capsets(),
            },
            acked_features: 0,
            worker: None,
            worker_active: false,
            gpu_backend: None,
            gpu_config,
        }
    }

    /// Connects the device to a display.
    pub fn set_gpu_socket(&mut self, gpu_backend: S)
        requires
            old(self).inv(),
        ensures
            final(self).inv(),
            final(self)@ == (GpuView { gpu_backend: Some(gpu_backend), ..old(self)@ }),
    {
        self.gpu_backend = Some(gpu_backend);
    }

    /// What the worker needs after an activation, to be started.
    pub fn take_worker(&mut self) -> (worker: Option<GpuStart<S, Q>>)
        requires
            old(self).inv(),
        ensures
            final(self).inv(),
            final(self)@ == (GpuView { worker: None, ..old(self)@ }),
            worker == old(self)@.worker,
    {
        self.worker.take()
    }
}

impl<S, Q> VirtioDevice<Q> for GpuDevice<S, Q> {
    open spec fn inv(&self) -> bool {
        AVAIL_FEATURES & self@.acked_features == self@.acked_features
    }

    open spec fn spec_avail_features(&self) -> u64 {
        AVAIL_FEATURES
    }

    open spec fn spec_acked_features(&self) -> u64 {
        self@.acked_features
    }

    open spec fn spec_queues(&self) -> Seq<QueueArgs> {
        gpu_queues()
    }

    open spec fn can_read_config(&self, offset: usize, len: nat) -> bool {
        offset <= CONFIG_SIZE
    }

    open spec fn config_read(&self, offset: usize, data: Seq<u8>) -> (
        Seq<u8>,
        Result<(), DeviceError>,
    ) {
        gpu_config_read(self@.virtio_cfg.spec_bytes(), offset, data)
    }

    open spec fn features_acked(before: Self, features: u64, after: Self) -> bool {
        after@ == GpuView { acked_features: features & AVAIL_FEATURES, ..before@ }
    }

    open spec fn config_written(
        before: Self,
        offset: usize,
        data: Seq<u8>,
        after: Self,
        result: Result<(), DeviceError>,
    ) -> bool {
        after@ == before@ && result == Err::<(), DeviceError>(DeviceError::ConfigWriteUnsupported)
    }

    open spec fn can_activate(&self, queues: Map<usize, Q>) -> bool {
        true
    }

    open spec fn activated(
        before: Self,
        queues: Map<usize, Q>,
        after: Self,
        result: Result<(), DeviceError>,
    ) -> bool {
        after@ == before@.activated(queues) && result == before@.activation(queues)
    }

    open spec fn stopped(before: Self, after: Self) -> bool {
        after@ == before@.stopped()
    }

    open spec fn supports_reset(&self) -> bool {
        false
    }

    proof fn lemma_acked_are_available(&self) {
    }

    fn avail_features(&self) -> (features: u64) {
        proof {
            lemma_offered_features();
        }
        1u64 << f_version_1() | 1u64 << f_ring_reset() | 1u64 << f_notify_on_empty() | 1u64
            << ring_f_indirect_desc() | 1u64 << ring_f_event_idx() | 1u64 << gpu_f_virgl() | 1u64
            << gpu_f_edid() | 1u64 << gpu_f_resource_blob() | 1u64 << gpu_f_context_init()
    }

    fn acked_features(&self) -> (features: u64) {
        self.acked_features
    }

    fn set_acked_features(&mut self, acked_features: u64) {
        self.acked_features = acked_features & self.avail_features();
        proof {
            let available = AVAIL_FEATURES;
            assert(available & (acked_features & available) == acked_features & available)
                by (bit_vector);
        }
    }

    fn queues(&self) -> (queues: Vec<QueueArgs>) {
        let mut queues: Vec<QueueArgs> = Vec::new();
        queues.push(QueueArgs::new(QUEUE_SIZE));
        queues.push(QueueArgs::new(QUEUE_SIZE));
        assert(queues@ =~= gpu_queues());
        queues
    }

    fn read_config(&self, offset: usize, data: &mut [u8]) -> (result: Result<(), DeviceError>) {
        let config = self.virtio_cfg.to_bytes();
        let len: usize = config.len() - offset;
        if len != data.len() {
            return Err(DeviceError::InvalidLength);
        }
        let mut i: usize = 0;
        while i < len
            invariant
                offset <= config@.len() == CONFIG_SIZE,
                i <= len == config@.len() - offset == data@.len(),
                forall|j: int| 0 <= j < i ==> #[trigger] data@[j] == config@[offset + j],
            decreases len - i,
        {
            data[i] = config[offset + i];
            i += 1;
        }
        assert(data@ =~= config@.skip(offset as int));
        Ok(())
    }

    fn write_config(&mut self, offset: usize, data: &[u8]) -> (result: Result<(), DeviceError>) {
        Err(DeviceError::ConfigWriteUnsupported)
    }

    fn activate(&mut self, queues: BTreeMap<usize, Q>) -> (result: Result<(), DeviceError>) {
        let mut queues = queues;
        let control_queue = match queues.remove(&CONTROL_QUEUE) {
            Some(queue) => queue,
            None => return Err(DeviceError::MissingControlQueue),
        };
        let cursor_queue = match queues.remove(&CURSOR_QUEUE) {
            Some(queue) => queue,
            None => return Err(DeviceError::MissingControlQueue),
        };
        match self.gpu_backend.take() {
            None => Err(DeviceError::MissingGpuBackend),
            Some(gpu_backend) => {
                self.worker = Some(
                    GpuStart {
                        control_queue,
                        cursor_queue,
                        gpu_backend,
                        gpu_config: self.gpu_config,
                    },
                );
                self.worker_active = true;
                Ok(())
            },
        }
    }

    fn stop(&mut self) {
        self.worker = None;
        self.worker_active = false;
    }

    fn reset(&mut self) -> (supported: bool) {
        self.stop();
        false
    }
}

/// The queues the device asks for.
pub open spec fn gpu_queues() -> Seq<QueueArgs> {
    seq![QueueArgs::of_size(QUEUE_SIZE), QueueArgs::of_size(QUEUE_SIZE)]
}

/// What a read of the configuration space at `offset` makes of the buffer `data`, and what it
/// returns: everything from the offset on has to be read.
pub open spec fn gpu_config_read(config: Seq<u8>, offset: usize, data: Seq<u8>) -> (
    Seq<u8>,
    Result<(), DeviceError>,
) {
    if config.len() - offset == data.len() {
        (config.skip(offset as int), Ok(()))
    } else {
        (data, Err(DeviceError::InvalidLength))
    }
}

/// The device offers exactly these features.
pub proof fn lemma_offered_features()
    ensures
        AVAIL_FEATURES == (1u64 << F_VERSION_1) | (1u64 << F_RING_RESET) | (1u64
            << F_NOTIFY_ON_EMPTY) | (1u64 << F_INDIRECT_DESC) | (1u64
            << crate::vhost_user::features::RING_F_EVENT_IDX) | (1u64 << F_VIRGL) | (1u64 << F_EDID) | (
        1u64 << F_RESOURCE_BLOB) | (1u64 << F_CONTEXT_INIT),
{
    assert(0x0101_3100_001bu64 == (1u64 << 32u32) | (1u64 << 40u32) | (1u64 << 24u32) | (1u64
        << 28u32) | (1u64 << 29u32) | (1u64 << 0u32) | (1u64 << 1u32) | (1u64 << 3u32) | (1u64
        << 4u32)) by (bit_vector);
}

/// What stands in the way of activating a GPU: it fails exactly if one of its two queues or the
/// display is missing, and then there is no worker to be started and the connection to the display
/// is kept. Further queues are of no account.
pub proof fn lemma_activation_errors<S, Q>(
    gpu: GpuView<S, Q>,
    queues: Map<usize, Q>,
    further: usize,
    queue: Q,
)
    requires
        further != CONTROL_QUEUE,
        further != CURSOR_QUEUE,
    ensures
        gpu.activation(queues) is Err <==> !queues.dom().contains(CONTROL_QUEUE)
            || !queues.dom().contains(CURSOR_QUEUE) || gpu.gpu_backend is None,
        gpu.activation(queues) is Err ==> gpu.activated(queues) == gpu,
        gpu.activation(queues) is Ok ==> gpu.activated(queues).worker is Some,
        gpu.activation(queues.insert(further, queue)) == gpu.activation(queues),
        gpu.activated(queues.insert(further, queue)) == gpu.activated(queues),
{
}

/// When the activation of a GPU fails: a front-end is told an error exactly if one of the two queues
/// or the display is missing, or if the worker could not be started. The connection to the display
/// goes to the worker, even if that could not be started.
pub proof fn lemma_activation_needs_worker<S, Q, E>(
    gpu: GpuView<S, Q>,
    queues: Map<usize, Q>,
    started: Result<(), E>,
)
    ensures
        crate::vhost_user::state::activation_result(gpu.activation(queues), started) is Err
            <==> !queues.dom().contains(CONTROL_QUEUE) || !queues.dom().contains(CURSOR_QUEUE)
            || gpu.gpu_backend is None || started is Err,
        gpu.activation(queues) is Ok ==> {
            &&& gpu.activated(queues).worker is Some
            &&& gpu.activated(queues).worker->0.gpu_backend == gpu.gpu_backend->0
            &&& gpu.activated(queues).gpu_backend is None
        },
{
}

/// A GPU can be activated again only after it was connected to a display again.
pub proof fn lemma_activation_takes_the_display<S, Q>(
    gpu: GpuView<S, Q>,
    first: Map<usize, Q>,
    second: Map<usize, Q>,
)
    requires
        gpu.activation(first) is Ok,
    ensures
        gpu.activated(first).activation(second) is Err,
        gpu.activated(first).stopped().activation(second) is Err,
{
}

} // verus!
