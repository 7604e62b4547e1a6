//! The listener: binding an address, and the accept loop.
//!
//! The caller binds and accepts, and reports each outcome as a
//! [`ListenerEvent`]; [`Listener::step`] answers with what to do next. If the
//! address asked for cannot be bound, the listener asks once for an ephemeral
//! loopback port in its place and warns of the change. It then starts every
//! connection that is accepted, until accepting fails.

use vstd::prelude::*;
use vstd::string::*;
use tokio::sync::broadcast::Sender;
use crate::bus::open;
use crate::journal::{fallback, fallback_text, info, listening, listening_text, warning, LogEvent, LogEventView};
use crate::supervisor::{accept, accepted, Connection, ConnectionView};
use crate::wire::Message;

verus! {

/// Where the listener stands.
#[derive(Clone, Copy, Debug, PartialEq, Eq, Structural)]
pub enum Phase {
    /// The address asked for is being bound.
    Binding,
    /// The address asked for was refused; the fallback is being bound.
    FallingBack,
    /// Bound to `port` and accepting.
    Listening { port: u16 },
    /// Done.
    Closed,
}

/// What the caller's last bind or accept gave.
#[derive(Debug)]
pub enum ListenerEvent {
    /// The bind succeeded, on this port.
    Bound { port: u16 },
    /// The bind failed.
    BindFailed,
    /// A peer connected from this address and port.
    Accepted { ip: String, port: u16 },
    /// Accepting failed.
    AcceptFailed,
}

/// What a [`ListenerEvent`] holds, as plain values.
pub enum ListenerEventView {
    Bound { port: u16 },
    BindFailed,
    Accepted { ip: Seq<char>, port: u16 },
    AcceptFailed,
}

impl View for ListenerEvent {
    type V = ListenerEventView;

    open spec fn view(&self) -> ListenerEventView {
        match self {
            ListenerEvent::Bound { port } => ListenerEventView::Bound { port: *port },
            ListenerEvent::BindFailed => ListenerEventView::BindFailed,
            ListenerEvent::Accepted { ip, port } => ListenerEventView::Accepted { ip: ip@, port: *port },
            ListenerEvent::AcceptFailed => ListenerEventView::AcceptFailed,
        }
    }
}

/// What the caller does next.
pub enum ListenerAction {
    /// Bind this address and report how that went.
    Bind { address: String },
    /// Report `warning`, if there is one, then `listening`, and accept.
    Serve { warning: Option<LogEvent>, listening: LogEvent },
    /// Start this connection, and accept again.
    Start(Connection),
    /// End the accept loop.
    Stop,
}

/// What a [`ListenerAction`] holds, as plain values.
pub enum ListenerActionView {
    Bind { address: Seq<char> },
    Serve { warning: Option<LogEventView>, listening: LogEventView },
    Start(ConnectionView),
    Stop,
}

impl View for ListenerAction {
    type V = ListenerActionView;

    open spec fn view(&self) -> ListenerActionView {
        match self {
            ListenerAction::Bind { address } => ListenerActionView::Bind { address: address@ },
            ListenerAction::Serve { warning, listening } => ListenerActionView::Serve {
                warning: match warning {
                    Some(event) => Some(event@),
                    None => None,
                },
                listening: listening@,
            },
            ListenerAction::Start(connection) => ListenerActionView::Start(connection@),
            ListenerAction::Stop => ListenerActionView::Stop,
        }
    }
}

/// The listener of one server run, with the bus of that run.
pub struct Listener {
    requested: String,
    phase: Phase,
    bus: Sender<Message>,
}

/// What a [`Listener`] holds, apart from the bus: the address asked for, as
/// text, and the phase.
pub struct ListenerView {
    pub requested: Seq<char>,
    pub phase: Phase,
}

/// The address bound when the one asked for is refused: loopback, with a
/// port of the system's choice.
pub open spec fn fallback_address() -> Seq<char> {
    "127.0.0.1:0"@
}

/// The listener's rule: the state after `event`, and what the caller does.
///
/// While the address asked for is being bound, success starts the service
/// and failure asks for the fallback address. Success with the fallback
/// starts the service with a warning. While listening, every accepted peer
/// gets its connection. Anything else ends the listener: a failed accept, a failed
/// fallback, an event that does not belong to the phase, and any event once
/// it is closed.
pub open spec fn listener_next(listener: ListenerView, event: ListenerEventView) -> (
    ListenerView,
    ListenerActionView,
) {
    match (listener.phase, event) {
        (Phase::Binding, ListenerEventView::Bound { port }) => (
            ListenerView { phase: Phase::Listening { port }, ..listener },
            ListenerActionView::Serve { warning: None, listening: info(listening_text(port)) },
        ),
        (Phase::Binding, ListenerEventView::BindFailed) => (
            ListenerView { phase: Phase::FallingBack, ..listener },
            ListenerActionView::Bind { address: fallback_address() },
        ),
        (Phase::FallingBack, ListenerEventView::Bound { port }) => (
            ListenerView { phase: Phase::Listening { port }, ..listener },
            ListenerActionView::Serve {
                warning: Some(warning(fallback_text(listener.requested, port))),
                listening: info(listening_text(port)),
            },
        ),
        (Phase::Listening { .. }, ListenerEventView::Accepted { ip, port }) => (
            listener,
            ListenerActionView::Start(accepted(ip, port)),
        ),
        _ => (ListenerView { phase: Phase::Closed, ..listener }, ListenerActionView::Stop),
    }
}

impl View for Listener {
    type V = ListenerView;

    closed spec fn view(&self) -> ListenerView {
        ListenerView { requested: self.requested@, phase: self.phase }
    }
}

impl Listener {
    /// A listener for the address that `requested` spells, about to bind it,
    /// with a new bus.
    pub fn new(requested: String) -> (listener: Listener)
        ensures
            listener@ == (ListenerView { requested: requested@, phase: Phase::Binding }),
    {
        Listener { requested, phase: Phase::Binding, bus: open() }
    }

    /// Where the listener stands.
    pub fn phase(&self) -> (phase: Phase)
        ensures
            phase == self@.phase,
    {
        self.phase
    }

    /// Takes the outcome of the last bind or accept and says what to do next.
    pub fn step(&mut self, event: ListenerEvent) -> (action: ListenerAction)
        ensures
            (final(self)@, action@) == listener_next(old(self)@, event@),
    {
        match self.phase {
            Phase::Binding => match event {
                ListenerEvent::Bound { port } => {
                    self.phase = Phase::Listening { port };
                    ListenerAction::Serve { warning: None, listening: listening(port) }
                },
                ListenerEvent::BindFailed => {
                    self.phase = Phase::FallingBack;
                    ListenerAction::Bind { address: String::from_str("127.0.0.1:0") }
                },
                _ => {
                    self.phase = Phase::Closed;
                    ListenerAction::Stop
                },
            },
            Phase::FallingBack => match event {
                ListenerEvent::Bound { port } => {
                    self.phase = Phase::Listening { port };
                    ListenerAction::Serve {
                        warning: Some(fallback(self.requested.as_str(), port)),
                        listening: listening(port),
                    }
                },
                _ => {
                    self.phase = Phase::Closed;
                    ListenerAction::Stop
                },
            },
            Phase::Listening { .. } => match event {
                ListenerEvent::Accepted { ip, port } => ListenerAction::Start(accept(&self.bus, ip, port)),
                _ => {
                    self.phase = Phase::Closed;
                    ListenerAction::Stop
                },
            },
            Phase::Closed => ListenerAction::Stop,
        }
    }
}

} // verus!
