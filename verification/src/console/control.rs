//! Control messages of a console.

use crate::virtio::le_bytes::{push_u16, push_u32, read_u16, read_u32};
use std::collections::VecDeque;
use vstd::prelude::*;

verus! {

/// Sent by the driver when it has found the device.
pub const VIRTIO_CONSOLE_DEVICE_READY: u16 = 0;

/// Sent by the device for each of its ports.
pub const VIRTIO_CONSOLE_PORT_ADD: u16 = 1;

/// Sent by the device for a port that goes away.
pub const VIRTIO_CONSOLE_PORT_REMOVE: u16 = 2;

/// Sent by the driver when it is ready to use a port.
pub const VIRTIO_CONSOLE_PORT_READY: u16 = 3;

/// Sent by the device for a port that is a terminal.
pub const VIRTIO_CONSOLE_CONSOLE_PORT: u16 = 4;

/// Sent by the device when the size of a terminal changes.
pub const VIRTIO_CONSOLE_RESIZE: u16 = 5;

/// Sent by either side when it opens or closes a port.
pub const VIRTIO_CONSOLE_PORT_OPEN: u16 = 6;

/// Sent by the device to name a port.
pub const VIRTIO_CONSOLE_PORT_NAME: u16 = 7;

/// The number of bytes of a control message without extra data.
pub const CONTROL_SIZE: usize = 8;

/// A control message.
#[derive(Copy, Clone, Debug, PartialEq, Eq, Structural)]
pub struct VirtioConsoleControl {
    /// Port number.
    pub id: u32,
    /// The kind of control event.
    pub event: u16,
    /// Extra information for the event.
    pub value: u16,
}

impl VirtioConsoleControl {
    /// The bytes of the message.
    pub open spec fn spec_bytes(&self) -> Seq<u8> {
        crate::virtio::le_bytes::le_bytes(self.id as nat, 4) + crate::virtio::le_bytes::le_bytes(
            self.event as nat,
            2,
        ) + crate::virtio::le_bytes::le_bytes(self.value as nat, 2)
    }

    /// The message that starts with the given bytes.
    pub open spec fn of_bytes(bytes: Seq<u8>) -> VirtioConsoleControl {
        VirtioConsoleControl {
            id: crate::virtio::le_bytes::le_value(bytes.subrange(0, 4)) as u32,
            event: crate::virtio::le_bytes::le_value(bytes.subrange(4, 6)) as u16,
            value: crate::virtio::le_bytes::le_value(bytes.subrange(6, 8)) as u16,
        }
    }

    /// The bytes of the message.
    pub fn to_bytes(&self) -> (bytes: Vec<u8>)
        ensures
            bytes@ == self.spec_bytes(),
    {
        let mut bytes: Vec<u8> = Vec::new();
        push_u32(&mut bytes, self.id);
        push_u16(&mut bytes, self.event);
        push_u16(&mut bytes, self.value);
        assert(bytes@ =~= self.spec_bytes());
        bytes
    }

    /// Reads a message from the start of `bytes`, or `None` if they are too few.
    pub fn from_bytes(bytes: &[u8]) -> (message: Option<VirtioConsoleControl>)
        ensures
            message == if bytes@.len() < CONTROL_SIZE {
                None
            } else {
                Some(VirtioConsoleControl::of_bytes(bytes@))
            },
    {
        if bytes.len() < CONTROL_SIZE {
            None
        } else {
            Some(
                VirtioConsoleControl {
                    id: read_u32(bytes, 0),
                    event: read_u16(bytes, 4),
                    value: read_u16(bytes, 6),
                },
            )
        }
    }
}

/// A message is read from its bytes as it was written.
pub proof fn lemma_control_round_trip(message: VirtioConsoleControl)
    ensures
        message.spec_bytes().len() == CONTROL_SIZE,
        VirtioConsoleControl::of_bytes(message.spec_bytes()) == message,
{
    let id = crate::virtio::le_bytes::le_bytes(message.id as nat, 4);
    let event = crate::virtio::le_bytes::le_bytes(message.event as nat, 2);
    let value = crate::virtio::le_bytes::le_bytes(message.value as nat, 2);
    crate::virtio::le_bytes::lemma_le_bytes_len(message.id as nat, 4);
    crate::virtio::le_bytes::lemma_le_bytes_len(message.event as nat, 2);
    crate::virtio::le_bytes::lemma_le_bytes_len(message.value as nat, 2);
    let bytes = message.spec_bytes();
    assert(bytes.subrange(0, 4) =~= id);
    assert(bytes.subrange(4, 6) =~= event);
    assert(bytes.subrange(6, 8) =~= value);
    assert(vstd::arithmetic::power::pow(256, 4) == 0x1_0000_0000) by {
        reveal_with_fuel(vstd::arithmetic::power::pow, 5);
    }
    assert(vstd::arithmetic::power::pow(256, 2) == 0x1_0000) by {
        reveal_with_fuel(vstd::arithmetic::power::pow, 3);
    }
    crate::virtio::le_bytes::lemma_le_round_trip(message.id as nat, 4);
    crate::virtio::le_bytes::lemma_le_round_trip(message.event as nat, 2);
    crate::virtio::le_bytes::lemma_le_round_trip(message.value as nat, 2);
}

/// The size of a terminal. Drivers expect the rows first.
#[derive(Copy, Clone, Debug, PartialEq, Eq, Structural)]
pub struct VirtioConsoleResize {
    /// The number of rows.
    pub rows: u16,
    /// The number of columns.
    pub cols: u16,
}

impl VirtioConsoleResize {
    /// The bytes that follow a message about a change of size.
    pub open spec fn spec_bytes(&self) -> Seq<u8> {
        crate::virtio::le_bytes::le_bytes(self.rows as nat, 2) + crate::virtio::le_bytes::le_bytes(
            self.cols as nat,
            2,
        )
    }
}

/// What is sent to the driver in one buffer.
#[derive(Debug)]
pub enum Payload {
    /// A message without extra data.
    ConsoleControl(VirtioConsoleControl),
    /// A message with extra data.
    Bytes(Vec<u8>),
}

/// What is sent to the driver in one buffer.
#[verifier::ext_equal]
pub enum PayloadView {
    /// A message without extra data.
    ConsoleControl(VirtioConsoleControl),
    /// A message with extra data.
    Bytes(Seq<u8>),
}

impl PayloadView {
    /// The bytes that are sent.
    pub open spec fn spec_bytes(&self) -> Seq<u8> {
        match self {
            PayloadView::ConsoleControl(message) => message.spec_bytes(),
            PayloadView::Bytes(bytes) => *bytes,
        }
    }
}

impl View for Payload {
    type V = PayloadView;

    open spec fn view(&self) -> PayloadView {
        match self {
            Payload::ConsoleControl(message) => PayloadView::ConsoleControl(*message),
            Payload::Bytes(bytes) => PayloadView::Bytes(bytes@),
        }
    }
}

impl Payload {
    /// The bytes that are sent.
    pub fn into_bytes(self) -> (bytes: Vec<u8>)
        ensures
            bytes@ == self@.spec_bytes(),
    {
        match self {
            Payload::ConsoleControl(message) => message.to_bytes(),
            Payload::Bytes(bytes) => bytes,
        }
    }
}

/// The message that tells of a terminal.
pub open spec fn console_port_message(port_id: u32) -> PayloadView {
    PayloadView::ConsoleControl(
        VirtioConsoleControl { id: port_id, event: VIRTIO_CONSOLE_CONSOLE_PORT, value: 1 },
    )
}

/// The message that tells of the size of a terminal.
pub open spec fn resize_message(port_id: u32, size: VirtioConsoleResize) -> PayloadView {
    PayloadView::Bytes(
        (VirtioConsoleControl {
            id: port_id,
            event: VIRTIO_CONSOLE_RESIZE,
            value: 0,
        }).spec_bytes() + size.spec_bytes(),
    )
}

/// The message that tells of a port.
pub open spec fn port_add_message(port_id: u32) -> PayloadView {
    PayloadView::ConsoleControl(
        VirtioConsoleControl { id: port_id, event: VIRTIO_CONSOLE_PORT_ADD, value: 0 },
    )
}

/// The message that tells that a port was opened or closed.
pub open spec fn port_open_message(port_id: u32, open: bool) -> PayloadView {
    PayloadView::ConsoleControl(
        VirtioConsoleControl {
            id: port_id,
            event: VIRTIO_CONSOLE_PORT_OPEN,
            value: if open {
                1
            } else {
                0
            },
        },
    )
}

/// The message that names a port: the name follows without a terminator.
pub open spec fn port_name_message(port_id: u32, name: Seq<u8>) -> PayloadView {
    PayloadView::Bytes(
        (VirtioConsoleControl {
            id: port_id,
            event: VIRTIO_CONSOLE_PORT_NAME,
            value: 1,
        }).spec_bytes() + name,
    )
}

/// Messages that wait for a buffer of the driver. Whoever adds one has to wake up the worker that
/// sends them.
pub struct ConsoleControl {
    queue: VecDeque<Payload>,
}

impl View for ConsoleControl {
    type V = Seq<PayloadView>;

    closed spec fn view(&self) -> Seq<PayloadView> {
        self.queue@.map_values(|payload: Payload| payload@)
    }
}

impl ConsoleControl {
    /// No messages.
    pub fn new() -> (control: ConsoleControl)
        ensures
            control@.len() == 0,
    {
        ConsoleControl { queue: VecDeque::new() }
    }

    /// Tells the driver that a port is a terminal.
    pub fn mark_console_port(&mut self, port_id: u32)
        ensures
            final(self)@ == old(self)@.push(console_port_message(port_id)),
    {
        self.push_msg(
            VirtioConsoleControl { id: port_id, event: VIRTIO_CONSOLE_CONSOLE_PORT, value: 1 },
        )
    }

    /// Tells the driver the size of a terminal.
    pub fn console_resize(&mut self, port_id: u32, new_size: VirtioConsoleResize)
        ensures
            final(self)@ == old(self)@.push(resize_message(port_id, new_size)),
    {
        let mut buf: Vec<u8> = (VirtioConsoleControl {
            id: port_id,
            event: VIRTIO_CONSOLE_RESIZE,
            value: 0,
        }).to_bytes();
        push_u16(&mut buf, new_size.rows);
        push_u16(&mut buf, new_size.cols);
        assert(PayloadView::Bytes(buf@) =~= resize_message(port_id, new_size));
        self.push_vec(buf)
    }

    /// Adds another port with the specified number.
    pub fn port_add(&mut self, port_id: u32)
        ensures
            final(self)@ == old(self)@.push(port_add_message(port_id)),
    {
        self.push_msg(
            VirtioConsoleControl { id: port_id, event: VIRTIO_CONSOLE_PORT_ADD, value: 0 },
        )
    }

    /// Tells the driver that a port was opened or closed.
    pub fn port_open(&mut self, port_id: u32, open: bool)
        ensures
            final(self)@ == old(self)@.push(port_open_message(port_id, open)),
    {
        self.push_msg(
            VirtioConsoleControl {
                id: port_id,
                event: VIRTIO_CONSOLE_PORT_OPEN,
                value: if open {
                    1
                } else {
                    0
                },
            },
        )
    }

    /// Tells the driver the name of a port.
    pub fn port_name(&mut self, port_id: u32, name: &str)
        ensures
            final(self)@ == old(self)@.push(port_name_message(port_id, vstd::utf8::encode_utf8(name@))),
    {
        // The meaning of the value is not specified.
        let mut buf: Vec<u8> = (VirtioConsoleControl {
            id: port_id,
            event: VIRTIO_CONSOLE_PORT_NAME,
            value: 1,
        }).to_bytes();
        buf.extend_from_slice(name.as_bytes());
        assert(PayloadView::Bytes(buf@) =~= port_name_message(
            port_id,
            vstd::utf8::encode_utf8(name@),
        ));
        self.push_vec(buf)
    }

    /// Takes out the message that waits longest.
    pub fn queue_pop(&mut self) -> (payload: Option<Payload>)
        ensures
            match payload {
                Some(payload) => {
                    &&& old(self)@.len() > 0
                    &&& payload@ == old(self)@[0]
                    &&& final(self)@ == old(self)@.skip(1)
                },
                None => old(self)@.len() == 0 && final(self)@ == old(self)@,
            },
    {
        let payload = self.queue.pop_front();
        assert(old(self)@.len() > 0 ==> self@ =~= old(self)@.skip(1));
        payload
    }

    fn push_msg(&mut self, msg: VirtioConsoleControl)
        ensures
            final(self)@ == old(self)@.push(PayloadView::ConsoleControl(msg)),
    {
        self.queue.push_back(Payload::ConsoleControl(msg));
        assert(self@ =~= old(self)@.push(PayloadView::ConsoleControl(msg)));
    }

    fn push_vec(&mut self, buf: Vec<u8>)
        ensures
            final(self)@ == old(self)@.push(PayloadView::Bytes(buf@)),
    {
        self.queue.push_back(Payload::Bytes(buf));
        assert(self@ =~= old(self)@.push(PayloadView::Bytes(buf@)));
    }
}

} // verus!
