//! Ports of a console.
//!
//! A port reads from an input of the type `I` and writes to an output of the type `O`. Each of
//! them is served by a worker of its own, which whoever starts a port has to run.

use vstd::prelude::*;

verus! {

/// What a port is for.
pub enum PortDescription<I, O> {
    /// A terminal.
    Console {
        /// What is typed.
        input: Option<I>,
        /// What is shown.
        output: Option<O>,
    },
    /// A stream of bytes for the guest.
    InputPipe {
        /// The name under which the guest finds the port.
        name: String,
        /// Where the bytes come from.
        input: I,
    },
    /// A stream of bytes from the guest.
    OutputPipe {
        /// The name under which the guest finds the port.
        name: String,
        /// Where the bytes go to.
        output: O,
    },
}

impl<I, O> PortDescription<I, O> {
    /// Whether a port can be made: a terminal needs both an input and an output.
    pub open spec fn complete(&self) -> bool {
        self matches PortDescription::Console { input, output } ==> input is Some && output is Some
    }

    /// Whether this is a terminal.
    pub fn is_console(&self) -> (console: bool)
        ensures
            console == self is Console,
    {
        match self {
            PortDescription::Console { .. } => true,
            _ => false,
        }
    }

    /// Whether a port can be made: a terminal needs both an input and an output.
    pub fn is_complete(&self) -> (complete: bool)
        ensures
            complete == self.complete(),
    {
        match self {
            PortDescription::Console { input, output } => input.is_some() && output.is_some(),
            _ => true,
        }
    }
}

/// Whether a port was started, and which of its workers run.
#[derive(Debug, Clone, Copy, PartialEq, Eq, Structural)]
pub enum PortState {
    /// The port was not started yet.
    Inactive,
    /// The port was started.
    Active {
        /// Whether the worker that reads the input runs.
        rx: bool,
        /// Whether the worker that writes the output runs.
        tx: bool,
    },
}

/// What to do to shut a port down.
#[derive(Debug, Clone, Copy, PartialEq, Eq, Structural)]
pub struct PortShutdown {
    /// Whether the workers have to be told to stop.
    pub signal: bool,
    /// Whether then to wait for the worker that writes the output.
    pub tx: bool,
    /// Whether then to wait for the worker that reads the input.
    pub rx: bool,
}

/// What to do to start a port.
pub struct PortStart<Q> {
    /// How to shut the port down before.
    pub shutdown: PortShutdown,
    /// The queue for the worker that reads the input, if there is one to run.
    pub rx: Option<Q>,
    /// The queue for the worker that writes the output, if there is one to run.
    pub tx: Option<Q>,
}

/// A port of a console.
pub struct Port<I, O> {
    port_id: u32,
    name: String,
    represents_console: bool,
    state: PortState,
    input: Option<I>,
    output: Option<O>,
}

/// A port, with its name as text.
pub struct PortView<I, O> {
    /// The number of the port.
    pub port_id: u32,
    /// The name of the port, which is empty if it has none.
    pub name: Seq<char>,
    /// Whether the port is a terminal.
    pub represents_console: bool,
    /// Whether the port was started, and which of its workers run.
    pub state: PortState,
    /// Where the bytes for the guest come from.
    pub input: Option<I>,
    /// Where the bytes of the guest go to.
    pub output: Option<O>,
}

impl<I, O> PortView<I, O> {
    /// The port with the given number, as described.
    pub open spec fn described(port_id: u32, description: PortDescription<I, O>) -> PortView<
        I,
        O,
    > {
        let state = PortState::Inactive;
        match description {
            PortDescription::Console { input, output } => PortView {
                port_id,
                name: seq![],
                represents_console: true,
                state,
                input,
                output,
            },
            PortDescription::InputPipe { name, input } => PortView {
                port_id,
                name: name@,
                represents_console: false,
                state,
                input: Some(input),
                output: None,
            },
            PortDescription::OutputPipe { name, output } => PortView {
                port_id,
                name: name@,
                represents_console: false,
                state,
                input: None,
                output: Some(output),
            },
        }
    }

    /// The port after it was started.
    pub open spec fn started(self) -> PortView<I, O> {
        PortView {
            state: PortState::Active { rx: self.input is Some, tx: self.output is Some },
            ..self
        }
    }

    /// What to do to shut the port down.
    pub open spec fn shutdown_steps(self) -> PortShutdown {
        match self.state {
            PortState::Inactive => PortShutdown { signal: false, tx: false, rx: false },
            PortState::Active { rx, tx } => PortShutdown { signal: true, tx, rx },
        }
    }

    /// The port after it was shut down. It does not become inactive again.
    pub open spec fn shut_down(self) -> PortView<I, O> {
        match self.state {
            PortState::Inactive => self,
            PortState::Active { .. } => PortView {
                state: PortState::Active { rx: false, tx: false },
                ..self
            },
        }
    }

    /// What to do to start the port with the given queues. A queue that has no worker is given up.
    pub open spec fn start_steps<Q>(self, rx_queue: Q, tx_queue: Q) -> PortStart<Q> {
        PortStart {
            shutdown: self.shutdown_steps(),
            rx: if self.input is Some {
                Some(rx_queue)
            } else {
                None
            },
            tx: if self.output is Some {
                Some(tx_queue)
            } else {
                None
            },
        }
    }
}

impl<I, O> View for Port<I, O> {
    type V = PortView<I, O>;

    closed spec fn view(&self) -> PortView<I, O> {
        PortView {
            port_id: self.port_id,
            name: self.name@,
            represents_console: self.represents_console,
            state: self.state,
            input: self.input,
            output: self.output,
        }
    }
}

impl<I, O> Port<I, O> {
    /// The port with the given number, as described.
    pub fn new(port_id: u32, description: PortDescription<I, O>) -> (port: Port<I, O>)
        requires
            description.complete(),
        ensures
            port@ == PortView::described(port_id, description),
    {
        match description {
            PortDescription::Console { input, output } => {
                let name = String::new();
                assert(name@ =~= seq![]);
                Port {
                    port_id,
                    name,
                    represents_console: true,
                    state: PortState::Inactive,
                    input: Some(input.unwrap()),
                    output: Some(output.unwrap()),
                }
            },
            PortDescription::InputPipe { name, input } => Port {
                port_id,
                name,
                represents_console: false,
                state: PortState::Inactive,
                input: Some(input),
                output: None,
            },
            PortDescription::OutputPipe { name, output } => Port {
                port_id,
                name,
                represents_console: false,
                state: PortState::Inactive,
                input: None,
                output: Some(output),
            },
        }
    }

    /// The number of the port.
    pub fn port_id(&self) -> (port_id: u32)
        ensures
            port_id == self@.port_id,
    {
        self.port_id
    }

    /// The name of the port, which is empty if it has none.
    pub fn name(&self) -> (name: &str)
        ensures
            name@ == self@.name,
    {
        self.name.as_str()
    }

    /// Whether the port is a terminal.
    pub fn is_console(&self) -> (console: bool)
        ensures
            console == self@.represents_console,
    {
        self.represents_console
    }

    /// Where the bytes for the guest come from.
    pub fn input(&self) -> (input: &Option<I>)
        ensures
            *input == self@.input,
    {
        &self.input
    }

    /// Where the bytes of the guest go to.
    pub fn output(&self) -> (output: &Option<O>)
        ensures
            *output == self@.output,
    {
        &self.output
    }

    /// Starts a worker for the input and one for the output, as far as the port has them. A port
    /// that was started before is shut down first.
    pub fn start<Q>(&mut self, rx_queue: Q, tx_queue: Q) -> (start: PortStart<Q>)
        ensures
            final(self)@ == old(self)@.started(),
            start == old(self)@.start_steps(rx_queue, tx_queue),
    {
        let shutdown = self.shutdown();
        let rx_thread: bool = self.input.is_some();
        let tx_thread: bool = self.output.is_some();
        self.state = PortState::Active { rx: rx_thread, tx: tx_thread };
        PortStart {
            shutdown,
            rx: if rx_thread {
                Some(rx_queue)
            } else {
                None
            },
            tx: if tx_thread {
                Some(tx_queue)
            } else {
                None
            },
        }
    }

    /// Stops the workers of the port, if it was started.
    pub fn shutdown(&mut self) -> (shutdown: PortShutdown)
        ensures
            final(self)@ == old(self)@.shut_down(),
            shutdown == old(self)@.shutdown_steps(),
    {
        match self.state {
            PortState::Inactive => PortShutdown { signal: false, tx: false, rx: false },
            PortState::Active { rx, tx } => {
                self.state = PortState::Active { rx: false, tx: false };
                PortShutdown { signal: true, tx, rx }
            },
        }
    }
}

/// Starting a port again first stops exactly the workers that run, and shutting a port down twice
/// waits for no worker twice.
pub proof fn lemma_workers_stop_once<I, O>(port: PortView<I, O>)
    ensures
        port.started().shutdown_steps() == (PortShutdown {
            signal: true,
            tx: port.output is Some,
            rx: port.input is Some,
        }),
        !port.shut_down().shutdown_steps().tx,
        !port.shut_down().shutdown_steps().rx,
{
}

} // verus!
