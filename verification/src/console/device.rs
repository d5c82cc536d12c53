//! The console device.

use crate::console::worker::{MainWorker, MainWorkerView};
use crate::virtio::le_bytes::{push_u16, push_u32};
use crate::console::port::{Port, PortDescription, PortView};
use crate::console::port_queue_mapping::num_queues;
use crate::virtio::queue_args::QueueArgs;
use crate::virtio::device::{DeviceError, VirtioDevice};
use std::collections::BTreeMap;
use vstd::prelude::*;

verus! {

/// Feature bit: the size of the terminal is in the configuration space.
pub const VIRTIO_CONSOLE_F_SIZE: u32 = 0;

/// Feature bit: the device has several ports.
pub const VIRTIO_CONSOLE_F_MULTIPORT: u32 = 1;

/// Feature bit: the device conforms to version 1.0 of virtio.
pub const VIRTIO_F_VERSION_1: u32 = 32;

/// The device type of a console.
pub const VIRTIO_ID_CONSOLE: u32 = 3;

/// The features the device offers.
pub const AVAIL_FEATURES: u64 = 0x1_0000_0003;

/// The device offers exactly the three features above.
pub proof fn lemma_offered_features()
    ensures
        AVAIL_FEATURES == (1u64 << VIRTIO_CONSOLE_F_SIZE) | (1u64 << VIRTIO_CONSOLE_F_MULTIPORT) | (
        1u64 << VIRTIO_F_VERSION_1),
{
    assert(0x1_0000_0003u64 == (1u64 << 0u32) | (1u64 << 1u32) | (1u64 << 32u32)) by (bit_vector);
}

/// The number of entries of each queue.
pub const QUEUE_SIZE: u16 = 256;

/// The number of bytes of the configuration space.
pub const CONFIG_SIZE: usize = 12;

/// The configuration space.
#[derive(Copy, Clone, Debug, PartialEq, Eq, Structural)]
pub struct VirtioConsoleConfig {
    cols: u16,
    rows: u16,
    max_nr_ports: u32,
    emerg_wr: u32,
}

impl VirtioConsoleConfig {
    /// The bytes of the configuration space: the number of columns and rows, the largest number of
    /// ports and what was written in an emergency.
    pub closed spec fn spec_bytes(&self) -> Seq<u8> {
        crate::virtio::le_bytes::le_bytes(self.cols as nat, 2) + crate::virtio::le_bytes::le_bytes(
            self.rows as nat,
            2,
        ) + crate::virtio::le_bytes::le_bytes(self.max_nr_ports as nat, 4) + crate::virtio::le_bytes::le_bytes(
            self.emerg_wr as nat,
            4,
        )
    }

    /// The configuration space of a device with the given terminal size and number of ports.
    pub fn new(cols: u16, rows: u16, max_nr_ports: u32) -> (config: Self)
        ensures
            config.spec_bytes() == config_bytes(cols, rows, max_nr_ports),
    {
        VirtioConsoleConfig { cols, rows, max_nr_ports, emerg_wr: 0 }
    }

    /// The bytes of the configuration space.
    pub fn to_bytes(&self) -> (bytes: Vec<u8>)
        ensures
            bytes@ == self.spec_bytes(),
            bytes@.len() == CONFIG_SIZE,
    {
        proof {
            crate::virtio::le_bytes::lemma_le_bytes_len(self.cols as nat, 2);
            crate::virtio::le_bytes::lemma_le_bytes_len(self.rows as nat, 2);
            crate::virtio::le_bytes::lemma_le_bytes_len(self.max_nr_ports as nat, 4);
            crate::virtio::le_bytes::lemma_le_bytes_len(self.emerg_wr as nat, 4);
        }
        let mut bytes: Vec<u8> = Vec::new();
        push_u16(&mut bytes, self.cols);
        push_u16(&mut bytes, self.rows);
        push_u32(&mut bytes, self.max_nr_ports);
        push_u32(&mut bytes, self.emerg_wr);
        assert(bytes@ =~= self.spec_bytes());
        bytes
    }
}

/// The bytes of a configuration space in which nothing was written in an emergency.
pub open spec fn config_bytes(cols: u16, rows: u16, max_nr_ports: u32) -> Seq<u8> {
    crate::virtio::le_bytes::le_bytes(cols as nat, 2) + crate::virtio::le_bytes::le_bytes(rows as nat, 2)
        + crate::virtio::le_bytes::le_bytes(max_nr_ports as nat, 4) + crate::virtio::le_bytes::le_bytes(0, 4)
}

/// What a read of the configuration space at `offset` makes of the buffer `data`, and what it
/// returns: the start of the buffer is filled as far as the configuration space goes. A read that
/// would not end within the address space fills nothing.
pub open spec fn console_config_read(config: Seq<u8>, offset: usize, data: Seq<u8>) -> (
    Seq<u8>,
    Result<(), DeviceError>,
) {
    if offset >= config.len() {
        (data, Err(DeviceError::InvalidOffset))
    } else if offset + data.len() > usize::MAX {
        (data, Ok(()))
    } else {
        (
            Seq::new(
                data.len(),
                |i: int|
                    if offset + i < config.len() {
                        config[offset + i]
                    } else {
                        data[i]
                    },
            ),
            Ok(()),
        )
    }
}

/// A console with at least one port, of which the first is a terminal.
pub struct Console<I, O, Q> {
    ports: Vec<Port<I, O>>,
    queues: Vec<QueueArgs>,
    worker: Option<MainWorker<I, O, Q>>,
    worker_active: bool,
    avail_features: u64,
    acked_features: u64,
    config: VirtioConsoleConfig,
}

/// The state of a console.
#[verifier::ext_equal]
pub struct ConsoleView<I, O, Q> {
    /// The ports that wait for the device to be activated.
    pub ports: Seq<PortView<I, O>>,
    /// The queues the device asks for.
    pub queues: Seq<QueueArgs>,
    /// The worker that was made by an activation, until it is run.
    pub worker: Option<MainWorkerView<I, O, Q>>,
    /// Whether there is a worker to be run, or that runs.
    pub worker_active: bool,
    /// The features the driver has acknowledged.
    pub acked_features: u64,
    /// The configuration space.
    pub config: Seq<u8>,
}

impl<I, O, Q> ConsoleView<I, O, Q> {
    /// The state after an activation: the ports go to a new worker.
    pub open spec fn activated(self, queues: Map<usize, Q>) -> ConsoleView<I, O, Q> {
        ConsoleView {
            ports: seq![],
            worker: Some(MainWorkerView::fresh(queues, self.ports)),
            worker_active: true,
            ..self
        }
    }

    /// The state after the worker was stopped. Its ports are gone.
    pub open spec fn stopped(self) -> ConsoleView<I, O, Q> {
        ConsoleView { worker: None, worker_active: false, ..self }
    }
}

impl<I, O, Q> View for Console<I, O, Q> {
    type V = ConsoleView<I, O, Q>;

    closed spec fn view(&self) -> ConsoleView<I, O, Q> {
        ConsoleView {
            ports: crate::console::worker::port_views(self.ports@),
            queues: self.queues@,
            worker: match self.worker {
                Some(worker) => Some(worker@),
                None => None,
            },
            worker_active: self.worker_active,
            acked_features: self.acked_features,
            config: self.config.spec_bytes(),
        }
    }
}

/// Whether a console can be made with the described ports: there is at least one, the first is a
/// terminal, every terminal is complete, and ports and queues can be numbered.
pub open spec fn describes_console<I, O>(descriptions: Seq<PortDescription<I, O>>) -> bool {
    &&& descriptions.len() > 0
    &&& descriptions[0] is Console
    &&& forall|i: int| 0 <= i < descriptions.len() ==> (#[trigger] descriptions[i]).complete()
    &&& descriptions.len() <= u32::MAX
    &&& crate::console::port_queue_mapping::queues_for_ports(descriptions.len() as int) <= usize::MAX
}

/// The ports that are described, numbered in their order.
pub open spec fn described_ports<I, O>(descriptions: Seq<PortDescription<I, O>>) -> Seq<
    PortView<I, O>,
> {
    Seq::new(descriptions.len(), |i: int| PortView::described(i as u32, descriptions[i]))
}

impl<I, O, Q> Console<I, O, Q> {
    /// Holds of every console.
    pub open spec fn valid(&self) -> bool {
        &&& self@.ports.len() <= u32::MAX
        &&& crate::console::port_queue_mapping::queues_for_ports(self@.ports.len() as int) <= usize::MAX
        &&& self@.config.len() == CONFIG_SIZE
        &&& self.avail() == AVAIL_FEATURES
        &&& AVAIL_FEATURES & self@.acked_features == self@.acked_features
    }

    /// The features the device offers.
    pub closed spec fn avail(&self) -> u64 {
        self.avail_features
    }

    /// A console with the described ports.
    pub fn new(ports: Vec<PortDescription<I, O>>) -> (console: Console<I, O, Q>)
        requires
            describes_console(ports@),
        ensures
            console.valid(),
            console@.ports == described_ports(ports@),
            console@.queues.len() == crate::console::port_queue_mapping::queues_for_ports(
                ports@.len() as int,
            ),
            forall|i: int|
                0 <= i < console@.queues.len() ==> (
                #[trigger] console@.queues[i]).spec_max_size() == QUEUE_SIZE,
            console@.worker is None,
            !console@.worker_active,
            console@.acked_features == 0,
            console@.config == config_bytes(80, 24, ports@.len() as u32),
    {
        let ghost descriptions = ports@;
        let num_ports: usize = ports.len();
        let num: usize = num_queues(num_ports);
        let mut queues: Vec<QueueArgs> = Vec::new();
        let mut i: usize = 0;
        while i < num
            invariant
                i <= num,
                queues@.len() == i,
                forall|j: int|
                    0 <= j < i ==> (#[trigger] queues@[j]).spec_max_size() == QUEUE_SIZE,
            decreases num - i,
        {
            queues.push(QueueArgs::new(QUEUE_SIZE));
            i += 1;
        }
        let mut rest = ports;
        let mut made: Vec<Port<I, O>> = Vec::new();
        let mut port_id: usize = 0;
        while port_id < num_ports
            invariant
                port_id <= num_ports == descriptions.len(),
                describes_console(descriptions),
                rest@ == descriptions.skip(port_id as int),
                made@.len() == port_id,
                forall|j: int|
                    0 <= j < port_id ==> (#[trigger] made@[j])@ == PortView::described(
                        j as u32,
                        descriptions[j],
                    ),
            decreases num_ports - port_id,
        {
            let description = rest.remove(0);
            assert(description == descriptions[port_id as int]);
            assert(rest@ =~= descriptions.skip(port_id + 1));
            assert(description.complete());
            made.push(Port::new(port_id as u32, description));
            port_id += 1;
        }
        let config = VirtioConsoleConfig::new(80, 24, num_ports as u32);
        proof {
            crate::virtio::le_bytes::lemma_le_bytes_len(80, 2);
            crate::virtio::le_bytes::lemma_le_bytes_len(24, 2);
            crate::virtio::le_bytes::lemma_le_bytes_len(num_ports as nat, 4);
            crate::virtio::le_bytes::lemma_le_bytes_len(0, 4);
            let available = AVAIL_FEATURES;
            assert(available & 0 == 0) by (bit_vector);
            assert(crate::console::worker::port_views(made@) =~= described_ports(descriptions));
        }
        Console {
            ports: made,
            queues,
            worker: None,
            worker_active: false,
            avail_features: AVAIL_FEATURES,
            acked_features: 0,
            config,
        }
    }

    /// The virtio device type.
    pub fn device_type(&self) -> (device_type: u32)
        ensures
            device_type == VIRTIO_ID_CONSOLE,
    {
        VIRTIO_ID_CONSOLE
    }

    /// The worker that was made by an activation, to be run.
    pub fn take_worker(&mut self) -> (worker: Option<MainWorker<I, O, Q>>)
        requires
            old(self).valid(),
        ensures
            final(self).valid(),
            final(self)@ == (ConsoleView { worker: None, ..old(self)@ }),
            match (worker, old(self)@.worker) {
                (Some(taken), Some(made)) => taken@ == made,
                (None, None) => true,
                _ => false,
            },
    {
        self.worker.take()
    }

    /// Whether the device can be activated with the given queues: it has ports, which it loses
    /// when it is activated, and the queues are all there.
    pub open spec fn activatable(&self, queues: Map<usize, Q>) -> bool {
        &&& self@.ports.len() > 0
        &&& crate::console::worker::has_console_queues(queues, self@.ports.len() as int)
    }
}

impl<I, O, Q> VirtioDevice<Q> for Console<I, O, Q> {
    open spec fn inv(&self) -> bool {
        self.valid()
    }

    open spec fn spec_avail_features(&self) -> u64 {
        AVAIL_FEATURES
    }

    open spec fn spec_acked_features(&self) -> u64 {
        self@.acked_features
    }

    open spec fn spec_queues(&self) -> Seq<QueueArgs> {
        self@.queues
    }

    open spec fn can_read_config(&self, offset: usize, len: nat) -> bool {
        true
    }

    open spec fn config_read(&self, offset: usize, data: Seq<u8>) -> (
        Seq<u8>,
        Result<(), DeviceError>,
    ) {
        console_config_read(self@.config, offset, data)
    }

    open spec fn features_acked(before: Self, features: u64, after: Self) -> bool {
        after@ == ConsoleView { acked_features: AVAIL_FEATURES & features, ..before@ }
    }

    open spec fn config_written(
        before: Self,
        offset: usize,
        data: Seq<u8>,
        after: Self,
        result: Result<(), DeviceError>,
    ) -> bool {
        after@ == before@ && result == Err::<(), DeviceError>(DeviceError::ConfigWriteUnsupported)
    }

    open spec fn can_activate(&self, queues: Map<usize, Q>) -> bool {
        self.activatable(queues)
    }

    open spec fn activated(
        before: Self,
        queues: Map<usize, Q>,
        after: Self,
        result: Result<(), DeviceError>,
    ) -> bool {
        after@ == before@.activated(queues) && result is Ok
    }

    open spec fn stopped(before: Self, after: Self) -> bool {
        after@ == before@.stopped()
    }

    open spec fn supports_reset(&self) -> bool {
        self@.ports.len() > 0
    }

    proof fn lemma_acked_are_available(&self) {
    }

    fn avail_features(&self) -> (features: u64) {
        self.avail_features
    }

    fn acked_features(&self) -> (features: u64) {
        self.acked_features
    }

    fn set_acked_features(&mut self, acked_features: u64) {
        self.acked_features = AVAIL_FEATURES & acked_features;
        proof {
            let available = AVAIL_FEATURES;
            assert(available & (available & acked_features) == available & acked_features)
                by (bit_vector);
        }
    }

    fn queues(&self) -> (queues: Vec<QueueArgs>) {
        let mut queues: Vec<QueueArgs> = Vec::new();
        let mut i: usize = 0;
        while i < self.queues.len()
            invariant
                i <= self.queues@.len(),
                queues@ == self.queues@.take(i as int),
            decreases self.queues@.len() - i,
        {
            queues.push(self.queues[i]);
            i += 1;
            assert(queues@ =~= self.queues@.take(i as int));
        }
        assert(queues@ =~= self.queues@);
        queues
    }

    fn read_config(&self, offset: usize, data: &mut [u8]) -> (result: Result<(), DeviceError>) {
        let config = self.config.to_bytes();
        if offset >= config.len() {
            return Err(DeviceError::InvalidOffset);
        }
        let ghost before = data@;
        let len: usize = data.len();
        if offset.checked_add(len).is_some() {
            let mut i: usize = 0;
            while i < len && i < config.len() - offset
                invariant
                    offset < config@.len(),
                    i <= len == data@.len() == before.len(),
                    i <= config@.len() - offset,
                    forall|j: int| 0 <= j < i ==> #[trigger] data@[j] == config@[offset + j],
                    forall|j: int| i <= j < len ==> #[trigger] data@[j] == before[j],
                decreases len - i,
            {
                data[i] = config[offset + i];
                i += 1;
            }
            assert(data@ =~= console_config_read(config@, offset, before).0);
        }
        Ok(())
    }

    fn write_config(&mut self, offset: usize, data: &[u8]) -> (result: Result<(), DeviceError>) {
        Err(DeviceError::ConfigWriteUnsupported)
    }

    fn activate(&mut self, queues: BTreeMap<usize, Q>) -> (result: Result<(), DeviceError>) {
        let mut ports: Vec<Port<I, O>> = Vec::new();
        std::mem::swap(&mut ports, &mut self.ports);
        self.worker = Some(MainWorker::new(queues, ports));
        self.worker_active = true;
        assert(self@.ports =~= seq![]);
        Ok(())
    }

    fn stop(&mut self) {
        self.worker = None;
        self.worker_active = false;
    }

    fn reset(&mut self) -> (supported: bool) {
        self.stop();
        self.ports.len() > 0
    }
}

/// A part of the configuration space reads as it does in a read of everything.
pub proof fn lemma_config_reads_agree(config: Seq<u8>, offset: usize, data: Seq<u8>, all: Seq<u8>)
    requires
        offset < config.len(),
        offset + data.len() <= config.len() <= usize::MAX,
        all.len() == config.len(),
    ensures
        console_config_read(config, 0, all).0 == config,
        console_config_read(config, offset, data).0 == console_config_read(
            config,
            0,
            all,
        ).0.subrange(offset as int, offset + data.len()),
{
    assert(console_config_read(config, 0, all).0 =~= config);
    assert(console_config_read(config, offset, data).0 =~= config.subrange(
        offset as int,
        offset + data.len(),
    ));
}

/// A console that supports being reset can be activated once it is reset, with the queues it asks
/// for, and one that was activated does not support it.
pub proof fn lemma_reset_console_can_be_activated<I, O, Q>(
    before: Console<I, O, Q>,
    after: Console<I, O, Q>,
    queues: Map<usize, Q>,
)
    requires
        <Console<I, O, Q> as VirtioDevice<Q>>::stopped(before, after),
        crate::console::worker::has_console_queues(queues, before@.ports.len() as int),
    ensures
        VirtioDevice::<Q>::supports_reset(&before) <==> VirtioDevice::<Q>::can_activate(
            &after,
            queues,
        ),
        before@.activated(queues).ports.len() == 0,
{
}

/// A console can be activated once: the ports go to the worker, and do not come back when it is
/// stopped.
pub proof fn lemma_console_activates_once<I, O, Q>(console: ConsoleView<I, O, Q>, queues: Map<usize, Q>)
    ensures
        console.activated(queues).ports.len() == 0,
        console.activated(queues).stopped().ports.len() == 0,
        console.activated(queues).stopped().worker is None,
{
}

} // verus!
