//! The writing side of a connection.
//!
//! The caller waits on the connection's subscription and on its socket and
//! reports each outcome as a [`WriterEvent`]; [`Writer::step`] answers with
//! what to do next. A delivered message becomes one line for the client. A
//! lag fault, a closed bus or a failed write closes the writer for good: a
//! subscriber that fell behind is dropped, never served a history with gaps.

use vstd::prelude::*;
use vstd::string::*;
use crate::task::TaskState;
use crate::wire::{outbound_line, outbound_text, Message, MessageView};

verus! {

/// What the writer's last wait gave.
#[derive(Debug)]
pub enum WriterEvent {
    /// The subscription delivered the next message.
    Delivered(Message),
    /// The subscription fell behind and lost this many messages.
    Lagged(u64),
    /// The bus is gone.
    BusClosed,
    /// The line was written to the socket.
    Written,
    /// The line could not be written.
    WriteFailed,
}

/// What a [`WriterEvent`] holds, as plain values.
pub enum WriterEventView {
    Delivered(MessageView),
    Lagged(u64),
    BusClosed,
    Written,
    WriteFailed,
}

impl View for WriterEvent {
    type V = WriterEventView;

    open spec fn view(&self) -> WriterEventView {
        match self {
            WriterEvent::Delivered(message) => WriterEventView::Delivered(message@),
            WriterEvent::Lagged(missed) => WriterEventView::Lagged(*missed),
            WriterEvent::BusClosed => WriterEventView::BusClosed,
            WriterEvent::Written => WriterEventView::Written,
            WriterEvent::WriteFailed => WriterEventView::WriteFailed,
        }
    }
}

/// What the caller does next.
#[derive(Debug)]
pub enum WriterAction {
    /// Write this line to the socket and report how that went.
    Write(String),
    /// Wait for the subscription's next delivery.
    Receive,
    /// End the task.
    Stop,
}

/// What a [`WriterAction`] holds, as plain values.
pub enum WriterActionView {
    Write(Seq<char>),
    Receive,
    Stop,
}

impl View for WriterAction {
    type V = WriterActionView;

    open spec fn view(&self) -> WriterActionView {
        match self {
            WriterAction::Write(line) => WriterActionView::Write(line@),
            WriterAction::Receive => WriterActionView::Receive,
            WriterAction::Stop => WriterActionView::Stop,
        }
    }
}

/// The writing side of one connection.
#[derive(Debug)]
pub struct Writer {
    id: u16,
    state: TaskState,
}

/// What a [`Writer`] holds: the connection's identifier, and whether the
/// writer still runs.
pub struct WriterView {
    pub id: u16,
    pub state: TaskState,
}

/// The writer of a connection that was just accepted.
pub open spec fn fresh_writer(id: u16) -> WriterView {
    WriterView { id, state: TaskState::Active }
}

/// The writer's rule: the state after `event`, and what the caller does.
///
/// An active writer turns each delivered message into one line: the
/// acknowledgement where the message is the connection's own, a relay line
/// otherwise. After a line is written it waits for the next delivery. A lag
/// fault, a closed bus or a failed write closes it. A closed writer stays
/// closed and asks for nothing.
pub open spec fn writer_next(writer: WriterView, event: WriterEventView) -> (WriterView, WriterActionView) {
    let closed = WriterView { state: TaskState::Closed, ..writer };
    match writer.state {
        TaskState::Closed => (writer, WriterActionView::Stop),
        TaskState::Active => match event {
            WriterEventView::Delivered(message) => (
                writer,
                WriterActionView::Write(outbound_text(writer.id, message)),
            ),
            WriterEventView::Written => (writer, WriterActionView::Receive),
            WriterEventView::Lagged(_) | WriterEventView::BusClosed | WriterEventView::WriteFailed => (
                closed,
                WriterActionView::Stop,
            ),
        },
    }
}

impl View for Writer {
    type V = WriterView;

    closed spec fn view(&self) -> WriterView {
        WriterView { id: self.id, state: self.state }
    }
}

impl Writer {
    /// The writer of the connection with identifier `id`, active.
    pub fn new(id: u16) -> (writer: Writer)
        ensures
            writer@ == fresh_writer(id),
    {
        Writer { id, state: TaskState::Active }
    }

    /// The connection's identifier.
    pub fn id(&self) -> (id: u16)
        ensures
            id == self@.id,
    {
        self.id
    }

    /// Whether the writer still runs.
    pub fn state(&self) -> (state: TaskState)
        ensures
            state == self@.state,
    {
        self.state
    }

    /// Takes the outcome of the last wait and says what to do next.
    pub fn step(&mut self, event: WriterEvent) -> (action: WriterAction)
        ensures
            (final(self)@, action@) == writer_next(old(self)@, event@),
    {
        match self.state {
            TaskState::Closed => WriterAction::Stop,
            TaskState::Active => match event {
                WriterEvent::Delivered(message) => WriterAction::Write(outbound_line(self.id, &message)),
                WriterEvent::Written => WriterAction::Receive,
                WriterEvent::Lagged(_) | WriterEvent::BusClosed | WriterEvent::WriteFailed => {
                    self.state = TaskState::Closed;
                    WriterAction::Stop
                },
            },
        }
    }
}

} // verus!
