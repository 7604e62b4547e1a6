//! The reading side of a connection.
//!
//! The caller reads lines from the socket and reports each outcome as a
//! [`ReadEvent`]; [`Reader::step`] answers with what to do next. Every line
//! is published under the connection's identifier. The first end of stream,
//! reset or other failure closes the reader for good.

use vstd::prelude::*;
use vstd::string::*;
use crate::journal::{disconnected, disconnected_text, info, message, message_text, LogEvent, LogEventView};
use crate::task::TaskState;
use crate::wire::{Message, MessageView};

verus! {

/// What one attempt to read a line gave.
#[derive(Debug)]
pub enum ReadEvent {
    /// A complete line, without its terminator.
    Line(String),
    /// The peer closed its sending side.
    EndOfStream,
    /// The peer reset the connection.
    Reset,
    /// The read failed in any other way.
    Failed,
}

/// What a [`ReadEvent`] holds, as plain values.
pub enum ReadEventView {
    Line(Seq<char>),
    EndOfStream,
    Reset,
    Failed,
}

impl View for ReadEvent {
    type V = ReadEventView;

    open spec fn view(&self) -> ReadEventView {
        match self {
            ReadEvent::Line(text) => ReadEventView::Line(text@),
            ReadEvent::EndOfStream => ReadEventView::EndOfStream,
            ReadEvent::Reset => ReadEventView::Reset,
            ReadEvent::Failed => ReadEventView::Failed,
        }
    }
}

/// What the caller does after a read.
#[derive(Debug)]
pub enum ReaderAction {
    /// Report `log`, publish `message` on the bus, and read again.
    Publish { log: LogEvent, message: Message },
    /// Report `log` and end the task.
    Leave { log: LogEvent },
    /// End the task and report nothing.
    Stop,
}

/// What a [`ReaderAction`] holds, as plain values.
pub enum ReaderActionView {
    Publish { log: LogEventView, message: MessageView },
    Leave { log: LogEventView },
    Stop,
}

impl View for ReaderAction {
    type V = ReaderActionView;

    open spec fn view(&self) -> ReaderActionView {
        match self {
            ReaderAction::Publish { log, message } => ReaderActionView::Publish {
                log: log@,
                message: message@,
            },
            ReaderAction::Leave { log } => ReaderActionView::Leave { log: log@ },
            ReaderAction::Stop => ReaderActionView::Stop,
        }
    }
}

/// The reading side of one connection.
#[derive(Debug)]
pub struct Reader {
    ip: String,
    id: u16,
    state: TaskState,
}

/// What a [`Reader`] holds, as plain values: the peer's address as text, the
/// connection's identifier, and whether the reader still runs.
pub struct ReaderView {
    pub ip: Seq<char>,
    pub id: u16,
    pub state: TaskState,
}

/// The reader of a connection that was just accepted.
pub open spec fn fresh_reader(ip: Seq<char>, id: u16) -> ReaderView {
    ReaderView { ip, id, state: TaskState::Active }
}

/// The reader's rule: the state after `event`, and what the caller does.
///
/// An active reader publishes every line under its identifier and stays
/// active. An end of stream or a reset closes it with one report that the
/// peer has left; any other failure closes it silently. A closed reader
/// stays closed and asks for nothing.
pub open spec fn reader_next(reader: ReaderView, event: ReadEventView) -> (ReaderView, ReaderActionView) {
    let closed = ReaderView { state: TaskState::Closed, ..reader };
    match reader.state {
        TaskState::Closed => (reader, ReaderActionView::Stop),
        TaskState::Active => match event {
            ReadEventView::Line(text) => (
                reader,
                ReaderActionView::Publish {
                    log: info(message_text(reader.id, text)),
                    message: MessageView { payload: text, source: reader.id },
                },
            ),
            ReadEventView::EndOfStream | ReadEventView::Reset => (
                closed,
                ReaderActionView::Leave { log: info(disconnected_text(reader.ip, reader.id)) },
            ),
            ReadEventView::Failed => (closed, ReaderActionView::Stop),
        },
    }
}

impl View for Reader {
    type V = ReaderView;

    closed spec fn view(&self) -> ReaderView {
        ReaderView { ip: self.ip@, id: self.id, state: self.state }
    }
}

impl Reader {
    /// The reader of a connection from `ip` with identifier `id`, active.
    pub fn new(ip: String, id: u16) -> (reader: Reader)
        ensures
            reader@ == fresh_reader(ip@, id),
    {
        Reader { ip, id, state: TaskState::Active }
    }

    /// The connection's identifier.
    pub fn id(&self) -> (id: u16)
        ensures
            id == self@.id,
    {
        self.id
    }

    /// Whether the reader still runs.
    pub fn state(&self) -> (state: TaskState)
        ensures
            state == self@.state,
    {
        self.state
    }

    /// Takes the outcome of one read and says what to do next.
    pub fn step(&mut self, event: ReadEvent) -> (action: ReaderAction)
        ensures
            (final(self)@, action@) == reader_next(old(self)@, event@),
    {
        match self.state {
            TaskState::Closed => ReaderAction::Stop,
            TaskState::Active => match event {
                ReadEvent::Line(text) => {
                    let log = message(self.id, text.as_str());
                    ReaderAction::Publish { log, message: Message { payload: text, source: self.id } }
                },
                ReadEvent::EndOfStream | ReadEvent::Reset => {
                    self.state = TaskState::Closed;
                    ReaderAction::Leave { log: disconnected(self.ip.as_str(), self.id) }
                },
                ReadEvent::Failed => {
                    self.state = TaskState::Closed;
                    ReaderAction::Stop
                },
            },
        }
    }
}

} // verus!
