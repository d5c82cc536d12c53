//! Which queues belong to which port of a console.
//!
//! Queues 0 and 1 belong to port 0, queues 2 and 3 carry control messages, and the queues of the
//! other ports follow.

use vstd::prelude::*;

verus! {

/// The queue through which the device sends control messages to the driver.
pub const CONTROL_RXQ_INDEX: usize = 2;

/// The queue through which the driver sends control messages to the device.
pub const CONTROL_TXQ_INDEX: usize = 3;

/// A direction, as seen from the driver.
#[derive(Debug, Clone, Copy, PartialEq, Eq, Structural)]
pub enum QueueDirection {
    /// From the device to the driver.
    Rx,
    /// From the driver to the device.
    Tx,
}

/// The queue of a port for a direction.
pub open spec fn queue_of_port(direction: QueueDirection, port_id: int) -> int {
    let rx = if port_id == 0 {
        0
    } else {
        2 + 2 * port_id
    };
    match direction {
        QueueDirection::Rx => rx,
        QueueDirection::Tx => rx + 1,
    }
}

/// The number of queues of a console with `num_ports` ports: two for each of them and two for
/// control messages.
pub open spec fn queues_for_ports(num_ports: int) -> int {
    2 + 2 * num_ports
}

/// The queue of a port for a direction.
pub fn port_id_to_queue_idx(direction: QueueDirection, port_id: usize) -> (queue: usize)
    requires
        queue_of_port(QueueDirection::Tx, port_id as int) <= usize::MAX,
    ensures
        queue == queue_of_port(direction, port_id as int),
{
    match direction {
        QueueDirection::Rx => if port_id == 0 {
            0
        } else {
            2 + 2 * port_id
        },
        QueueDirection::Tx => if port_id == 0 {
            1
        } else {
            2 + 2 * port_id + 1
        },
    }
}

/// The number of queues of a console with `num_ports` ports.
pub fn num_queues(num_ports: usize) -> (num: usize)
    requires
        queues_for_ports(num_ports as int) <= usize::MAX,
    ensures
        num == queues_for_ports(num_ports as int),
{
    2 + 2 * num_ports
}

/// No two ports, and no two directions of one port, share a queue, and no port uses a queue for
/// control messages.
pub proof fn lemma_ports_have_own_queues(
    direction1: QueueDirection,
    port1: int,
    direction2: QueueDirection,
    port2: int,
)
    requires
        0 <= port1,
        0 <= port2,
        queue_of_port(direction1, port1) == queue_of_port(direction2, port2),
    ensures
        direction1 == direction2,
        port1 == port2,
        queue_of_port(direction1, port1) != CONTROL_RXQ_INDEX,
        queue_of_port(direction1, port1) != CONTROL_TXQ_INDEX,
{
}

/// The queues of a console are exactly those of its ports and those for control messages.
pub proof fn lemma_every_queue_is_used(num_ports: int, queue: int)
    requires
        num_ports >= 1,
    ensures
        0 <= queue < queues_for_ports(num_ports) <==> {
            ||| queue == CONTROL_RXQ_INDEX
            ||| queue == CONTROL_TXQ_INDEX
            ||| exists|direction: QueueDirection, port: int|
                0 <= port < num_ports && queue == #[trigger] queue_of_port(direction, port)
        },
{
    if 0 <= queue < queues_for_ports(num_ports) {
        let direction = if queue % 2 == 0 {
            QueueDirection::Rx
        } else {
            QueueDirection::Tx
        };
        let port = if queue < 2 {
            0
        } else {
            queue / 2 - 1
        };
        assert(queue >= 4 || queue < 2 ==> queue == queue_of_port(direction, port));
    }
}

} // verus!
