//! The start of a new connection.
//!
//! A connection is identified by the port its peer connected from. When it
//! is accepted it is subscribed to the bus, which is therefore done before the
//! next connection is accepted, and it is given its login line, the report of
//! its arrival, and the two state machines that run its reading and its
//! writing side.

use vstd::prelude::*;
use vstd::string::*;
use tokio::sync::broadcast::{Receiver, Sender};
use crate::journal::{connected, connected_text, info, LogEvent, LogEventView};
use crate::reader::{fresh_reader, Reader, ReaderView};
use crate::wire::{login_line, login_text, Message};
use crate::writer::{fresh_writer, Writer, WriterView};

verus! {

/// All that a new connection starts with.
pub struct Connection {
    /// The connection's identifier.
    pub id: u16,
    /// The report of the connection's arrival.
    pub log: LogEvent,
    /// The first line to write to the peer.
    pub login: String,
    /// The reading side, which publishes through `publisher`.
    pub reader: Reader,
    /// The writing side, which is fed from `subscription`.
    pub writer: Writer,
    /// The reading side's handle on the bus.
    pub publisher: Sender<Message>,
    /// The connection's own subscription to the bus.
    pub subscription: Receiver<Message>,
}

/// What a [`Connection`] holds, apart from its two handles on the bus.
pub struct ConnectionView {
    pub id: u16,
    pub log: LogEventView,
    pub login: Seq<char>,
    pub reader: ReaderView,
    pub writer: WriterView,
}

impl View for Connection {
    type V = ConnectionView;

    open spec fn view(&self) -> ConnectionView {
        ConnectionView {
            id: self.id,
            log: self.log@,
            login: self.login@,
            reader: self.reader@,
            writer: self.writer@,
        }
    }
}

/// The connection of a peer that connected from address `ip` and port `port`:
/// the port is its identifier, and its first line is the login line for it.
pub open spec fn accepted(ip: Seq<char>, port: u16) -> ConnectionView {
    ConnectionView {
        id: port,
        log: info(connected_text(ip, port)),
        login: login_text(port),
        reader: fresh_reader(ip, port),
        writer: fresh_writer(port),
    }
}

/// Accepts on `bus` the peer that connected from `ip` and `port`.
pub fn accept(bus: &Sender<Message>, ip: String, port: u16) -> (connection: Connection)
    ensures
        connection@ == accepted(ip@, port),
{
    let publisher = bus.clone();
    let subscription = bus.subscribe();
    let log = connected(ip.as_str(), port);
    let login = login_line(port);
    Connection {
        id: port,
        log,
        login,
        reader: Reader::new(ip, port),
        writer: Writer::new(port),
        publisher,
        subscription,
    }
}

} // verus!
