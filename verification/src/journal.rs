//! The events that the server reports to its log sink.
//!
//! The library only words the events; handing them to a sink is the
//! caller's part. A text holds no line terminator.

use vstd::prelude::*;
use vstd::string::*;
use crate::decimal::{decimal, render};

verus! {

/// How much an event matters.
#[derive(Clone, Copy, Debug, PartialEq, Eq, Structural)]
pub enum Level {
    Info,
    Warn,
}

/// One event for the log sink.
#[derive(Debug)]
pub struct LogEvent {
    pub level: Level,
    pub text: String,
}

/// What a [`LogEvent`] holds, as plain values.
pub struct LogEventView {
    pub level: Level,
    pub text: Seq<char>,
}

impl View for LogEvent {
    type V = LogEventView;

    open spec fn view(&self) -> LogEventView {
        LogEventView { level: self.level, text: self.text@ }
    }
}

/// The text that reports a new connection from `ip`, identified by `port`.
pub open spec fn connected_text(ip: Seq<char>, port: u16) -> Seq<char> {
    "connected "@ + ip + " "@ + decimal(port as nat)
}

/// The text that reports that the peer at `ip`, identified by `port`, has left.
pub open spec fn disconnected_text(ip: Seq<char>, port: u16) -> Seq<char> {
    "disconnected "@ + ip + " "@ + decimal(port as nat)
}

/// The text that reports a line received from connection `port`.
pub open spec fn message_text(port: u16, payload: Seq<char>) -> Seq<char> {
    "message "@ + decimal(port as nat) + " "@ + payload
}

/// The text that reports the port on which the server listens.
pub open spec fn listening_text(port: u16) -> Seq<char> {
    "listening on port "@ + decimal(port as nat)
}

/// The text that reports that `requested` could not be bound and that the
/// server listens on the loopback port `port` instead.
pub open spec fn fallback_text(requested: Seq<char>, port: u16) -> Seq<char> {
    "Not able to use "@ + requested + ", fallback to 127.0.0.1:"@ + decimal(port as nat) + "."@
}

/// An informational event with the given text.
pub open spec fn info(text: Seq<char>) -> LogEventView {
    LogEventView { level: Level::Info, text }
}

/// A warning with the given text.
pub open spec fn warning(text: Seq<char>) -> LogEventView {
    LogEventView { level: Level::Warn, text }
}

/// Reports a new connection.
pub fn connected(ip: &str, port: u16) -> (event: LogEvent)
    ensures
        event@ == info(connected_text(ip@, port)),
{
    let mut text = String::from_str("connected ");
    text.append(ip);
    text.append(" ");
    text.append(render(port).as_str());
    LogEvent { level: Level::Info, text }
}

/// Reports that a peer has left.
pub fn disconnected(ip: &str, port: u16) -> (event: LogEvent)
    ensures
        event@ == info(disconnected_text(ip@, port)),
{
    let mut text = String::from_str("disconnected ");
    text.append(ip);
    text.append(" ");
    text.append(render(port).as_str());
    LogEvent { level: Level::Info, text }
}

/// Reports a line received from connection `port`.
pub fn message(port: u16, payload: &str) -> (event: LogEvent)
    ensures
        event@ == info(message_text(port, payload@)),
{
    let mut text = String::from_str("message ");
    text.append(render(port).as_str());
    text.append(" ");
    text.append(payload);
    LogEvent { level: Level::Info, text }
}

/// Reports the port on which the server listens.
pub fn listening(port: u16) -> (event: LogEvent)
    ensures
        event@ == info(listening_text(port)),
{
    let mut text = String::from_str("listening on port ");
    text.append(render(port).as_str());
    LogEvent { level: Level::Info, text }
}

/// Warns that `requested` could not be bound and names the loopback port
/// taken in its place.
pub fn fallback(requested: &str, port: u16) -> (event: LogEvent)
    ensures
        event@ == warning(fallback_text(requested@, port)),
{
    let mut text = String::from_str("Not able to use ");
    text.append(requested);
    text.append(", fallback to 127.0.0.1:");
    text.append(render(port).as_str());
    text.append(".");
    LogEvent { level: Level::Warn, text }
}

} // verus!
