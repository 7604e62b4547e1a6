//! What the relay as a whole does, stated over whole runs of a connection's
//! two sides.
//!
//! A run is the sequence of events that a side is told of, from the state
//! it starts in. The functions here collect what a side asks for over a run;
//! the lemmas say what that comes to.

use vstd::prelude::*;
use crate::journal::{disconnected_text, info, LogEventView};
use crate::reader::{reader_next, ReadEventView, ReaderActionView, ReaderView};
use crate::task::TaskState;
use crate::wire::{ack_text, outbound_text, relay_text, MessageView};
use crate::writer::{writer_next, WriterActionView, WriterEventView, WriterView};

verus! {

/// The reader's state after a run.
pub open spec fn reader_after(reader: ReaderView, events: Seq<ReadEventView>) -> ReaderView
    decreases events.len(),
{
    if events.len() == 0 {
        reader
    } else {
        reader_after(reader_next(reader, events[0]).0, events.drop_first())
    }
}

/// The messages that a reader has published over a run, in order.
pub open spec fn published(reader: ReaderView, events: Seq<ReadEventView>) -> Seq<MessageView>
    decreases events.len(),
{
    if events.len() == 0 {
        Seq::empty()
    } else {
        let (next, action) = reader_next(reader, events[0]);
        let rest = published(next, events.drop_first());
        match action {
            ReaderActionView::Publish { message, .. } => seq![message] + rest,
            _ => rest,
        }
    }
}

/// The reports that a peer has left which a reader has made over a run.
pub open spec fn departures(reader: ReaderView, events: Seq<ReadEventView>) -> Seq<LogEventView>
    decreases events.len(),
{
    if events.len() == 0 {
        Seq::empty()
    } else {
        let (next, action) = reader_next(reader, events[0]);
        let rest = departures(next, events.drop_first());
        match action {
            ReaderActionView::Leave { log } => seq![log] + rest,
            _ => rest,
        }
    }
}

/// The writer's state after a run.
pub open spec fn writer_after(writer: WriterView, events: Seq<WriterEventView>) -> WriterView
    decreases events.len(),
{
    if events.len() == 0 {
        writer
    } else {
        writer_after(writer_next(writer, events[0]).0, events.drop_first())
    }
}

/// The lines that a writer has asked to be written over a run, in order.
pub open spec fn written(writer: WriterView, events: Seq<WriterEventView>) -> Seq<Seq<char>>
    decreases events.len(),
{
    if events.len() == 0 {
        Seq::empty()
    } else {
        let (next, action) = writer_next(writer, events[0]);
        let rest = written(next, events.drop_first());
        match action {
            WriterActionView::Write(line) => seq![line] + rest,
            _ => rest,
        }
    }
}

/// The run of a reader whose socket yields these lines, one after another.
pub open spec fn lines_read(lines: Seq<Seq<char>>) -> Seq<ReadEventView> {
    Seq::new(lines.len(), |i: int| ReadEventView::Line(lines[i]))
}

/// The run of a writer whose subscription delivers these messages in this
/// order and whose socket takes every line.
pub open spec fn deliveries(messages: Seq<MessageView>) -> Seq<WriterEventView> {
    Seq::new(
        2 * messages.len(),
        |i: int|
            if i % 2 == 0 {
                WriterEventView::Delivered(messages[i / 2])
            } else {
                WriterEventView::Written
            },
    )
}

/// A closed reader stays closed whatever it is told, publishes nothing and
/// reports nothing.
pub proof fn lemma_closed_reader_is_silent(reader: ReaderView, events: Seq<ReadEventView>)
    requires
        reader.state == TaskState::Closed,
    ensures
        reader_after(reader, events) == reader,
        published(reader, events) == Seq::<MessageView>::empty(),
        departures(reader, events) == Seq::<LogEventView>::empty(),
    decreases events.len(),
{
    if events.len() > 0 {
        lemma_closed_reader_is_silent(reader, events.drop_first());
    }
}

/// A closed writer stays closed whatever it is told, and writes nothing.
pub proof fn lemma_closed_writer_is_silent(writer: WriterView, events: Seq<WriterEventView>)
    requires
        writer.state == TaskState::Closed,
    ensures
        writer_after(writer, events) == writer,
        written(writer, events) == Seq::<Seq<char>>::empty(),
    decreases events.len(),
{
    if events.len() > 0 {
        lemma_closed_writer_is_silent(writer, events.drop_first());
    }
}

/// A run in two parts: the second part starts where the first one ended,
/// and what was published and reported is what the parts give, in order.
pub proof fn lemma_reader_run_splits(reader: ReaderView, first: Seq<ReadEventView>, second: Seq<ReadEventView>)
    ensures
        reader_after(reader, first + second) == reader_after(reader_after(reader, first), second),
        published(reader, first + second) == published(reader, first) + published(
            reader_after(reader, first),
            second,
        ),
        departures(reader, first + second) == departures(reader, first) + departures(
            reader_after(reader, first),
            second,
        ),
    decreases first.len(),
{
    if first.len() > 0 {
        assert((first + second).drop_first() =~= first.drop_first() + second);
        lemma_reader_run_splits(reader_next(reader, first[0]).0, first.drop_first(), second);
    }
}

/// A run in two parts: the second part starts where the first one ended,
/// and what was written is what the parts give, in order.
pub proof fn lemma_writer_run_splits(writer: WriterView, first: Seq<WriterEventView>, second: Seq<WriterEventView>)
    ensures
        writer_after(writer, first + second) == writer_after(writer_after(writer, first), second),
        written(writer, first + second) == written(writer, first) + written(
            writer_after(writer, first),
            second,
        ),
    decreases first.len(),
{
    if first.len() > 0 {
        assert((first + second).drop_first() =~= first.drop_first() + second);
        lemma_writer_run_splits(writer_next(writer, first[0]).0, first.drop_first(), second);
    }
}

/// While its socket yields lines, a reader stays active, publishes each
/// line once, in the order read and under its own identifier, and reports
/// no departure.
pub proof fn lemma_every_line_is_published(reader: ReaderView, lines: Seq<Seq<char>>)
    requires
        reader.state == TaskState::Active,
    ensures
        reader_after(reader, lines_read(lines)) == reader,
        departures(reader, lines_read(lines)) == Seq::<LogEventView>::empty(),
        published(reader, lines_read(lines)).len() == lines.len(),
        forall|i: int|
            0 <= i < lines.len() ==> #[trigger] published(reader, lines_read(lines))[i] == (MessageView {
                payload: lines[i],
                source: reader.id,
            }),
    decreases lines.len(),
{
    if lines.len() > 0 {
        let rest = lines.drop_first();
        assert(lines_read(lines).drop_first() =~= lines_read(rest));
        lemma_every_line_is_published(reader, rest);
    }
}

/// While its subscription delivers and its socket takes every line, a
/// writer stays active and writes one line for each message, in the order
/// of delivery: the acknowledgement for a message of its own connection,
/// the relay line for any other.
pub proof fn lemma_every_delivery_is_written(writer: WriterView, messages: Seq<MessageView>)
    requires
        writer.state == TaskState::Active,
    ensures
        writer_after(writer, deliveries(messages)) == writer,
        written(writer, deliveries(messages)).len() == messages.len(),
        forall|i: int|
            0 <= i < messages.len() ==> #[trigger] written(writer, deliveries(messages))[i] == outbound_text(
                writer.id,
                messages[i],
            ),
    decreases messages.len(),
{
    if messages.len() > 0 {
        let events = deliveries(messages);
        let rest = messages.drop_first();
        let after_first = events.drop_first();
        assert(after_first.drop_first() =~= deliveries(rest)) by {
            assert forall|i: int| 0 <= i < 2 * rest.len() implies after_first.drop_first()[i] == deliveries(
                rest,
            )[i] by {
                assert((i + 2) % 2 == i % 2 && (i + 2) / 2 == i / 2 + 1) by (nonlinear_arith)
                    requires
                        0 <= i,
                ;
            }
        }
        lemma_every_delivery_is_written(writer, rest);
        assert(writer_after(writer, after_first) == writer_after(writer, deliveries(rest)));
        assert(written(writer, after_first) == written(writer, deliveries(rest)));
    }
}

/// Every line that a connection sends comes back to that connection as the
/// acknowledgement line, one for one.
pub proof fn lemma_own_lines_are_acknowledged(reader: ReaderView, writer: WriterView, lines: Seq<Seq<char>>)
    requires
        reader.state == TaskState::Active,
        writer.state == TaskState::Active,
        writer.id == reader.id,
    ensures
        written(writer, deliveries(published(reader, lines_read(lines)))).len() == lines.len(),
        forall|i: int|
            0 <= i < lines.len() ==> #[trigger] written(
                writer,
                deliveries(published(reader, lines_read(lines))),
            )[i] == ack_text(),
{
    lemma_every_line_is_published(reader, lines);
    lemma_every_delivery_is_written(writer, published(reader, lines_read(lines)));
}

/// Every line that one connection sends reaches another connection as one
/// relay line that names the sender and carries the text, and the relay
/// lines come in the order in which the lines were sent.
pub proof fn lemma_lines_are_relayed_in_order(reader: ReaderView, writer: WriterView, lines: Seq<Seq<char>>)
    requires
        reader.state == TaskState::Active,
        writer.state == TaskState::Active,
        writer.id != reader.id,
    ensures
        written(writer, deliveries(published(reader, lines_read(lines)))).len() == lines.len(),
        forall|i: int|
            0 <= i < lines.len() ==> #[trigger] written(
                writer,
                deliveries(published(reader, lines_read(lines))),
            )[i] == relay_text(reader.id, lines[i]),
{
    lemma_every_line_is_published(reader, lines);
    lemma_every_delivery_is_written(writer, published(reader, lines_read(lines)));
}

/// Over any run a reader reports at most one departure, and that report
/// names its own peer.
pub proof fn lemma_departure_is_reported_at_most_once(reader: ReaderView, events: Seq<ReadEventView>)
    ensures
        departures(reader, events).len() <= 1,
        forall|i: int|
            0 <= i < departures(reader, events).len() ==> #[trigger] departures(reader, events)[i] == info(
                disconnected_text(reader.ip, reader.id),
            ),
    decreases events.len(),
{
    if events.len() > 0 {
        let (next, action) = reader_next(reader, events[0]);
        if next.state == TaskState::Closed {
            lemma_closed_reader_is_silent(next, events.drop_first());
        } else {
            lemma_departure_is_reported_at_most_once(next, events.drop_first());
        }
    }
}

/// When the peer of an active reader closes or resets the connection after
/// any number of lines, the reader reports that departure exactly once,
/// whatever it is told afterwards; it has published the lines read before,
/// and ends closed.
pub proof fn lemma_disconnect_is_reported_once(
    reader: ReaderView,
    lines: Seq<Seq<char>>,
    end: ReadEventView,
    later: Seq<ReadEventView>,
)
    requires
        reader.state == TaskState::Active,
        end is EndOfStream || end is Reset,
    ensures
        departures(reader, lines_read(lines) + seq![end] + later) == seq![
            info(disconnected_text(reader.ip, reader.id)),
        ],
        published(reader, lines_read(lines) + seq![end] + later) == published(reader, lines_read(lines)),
        reader_after(reader, lines_read(lines) + seq![end] + later).state == TaskState::Closed,
{
    let closed = ReaderView { state: TaskState::Closed, ..reader };
    let tail = seq![end] + later;
    assert(lines_read(lines) + seq![end] + later =~= lines_read(lines) + tail);
    lemma_every_line_is_published(reader, lines);
    lemma_reader_run_splits(reader, lines_read(lines), tail);
    assert(tail.drop_first() =~= later);
    lemma_closed_reader_is_silent(closed, later);
}

/// A read that fails in any other way closes the reader without a report.
pub proof fn lemma_failed_read_is_silent(reader: ReaderView, lines: Seq<Seq<char>>, later: Seq<ReadEventView>)
    requires
        reader.state == TaskState::Active,
    ensures
        departures(reader, lines_read(lines) + seq![ReadEventView::Failed] + later) == Seq::<
            LogEventView,
        >::empty(),
        reader_after(reader, lines_read(lines) + seq![ReadEventView::Failed] + later).state
            == TaskState::Closed,
{
    let closed = ReaderView { state: TaskState::Closed, ..reader };
    let tail = seq![ReadEventView::Failed] + later;
    assert(lines_read(lines) + seq![ReadEventView::Failed] + later =~= lines_read(lines) + tail);
    lemma_every_line_is_published(reader, lines);
    lemma_reader_run_splits(reader, lines_read(lines), tail);
    assert(tail.drop_first() =~= later);
    lemma_closed_reader_is_silent(closed, later);
}

/// A lag fault, a closed bus or a failed write ends a writer: whatever it
/// had written stands, and it writes nothing more, whatever it is told
/// afterwards.
pub proof fn lemma_fault_ends_writer(
    writer: WriterView,
    before: Seq<WriterEventView>,
    fault: WriterEventView,
    later: Seq<WriterEventView>,
)
    requires
        fault is Lagged || fault is BusClosed || fault is WriteFailed,
    ensures
        written(writer, before + seq![fault] + later) == written(writer, before),
        writer_after(writer, before + seq![fault] + later).state == TaskState::Closed,
{
    let reached = writer_after(writer, before);
    let closed = WriterView { state: TaskState::Closed, ..reached };
    let tail = seq![fault] + later;
    assert(before + seq![fault] + later =~= before + tail);
    lemma_writer_run_splits(writer, before, tail);
    assert(tail.drop_first() =~= later);
    lemma_closed_writer_is_silent(closed, later);
}

/// A subscriber that falls behind is dropped: its writer has written, in
/// order and without a gap, one line for each message delivered before the
/// lag fault, and writes none after it.
pub proof fn lemma_lagging_subscriber_is_dropped(
    writer: WriterView,
    messages: Seq<MessageView>,
    missed: u64,
    later: Seq<WriterEventView>,
)
    requires
        writer.state == TaskState::Active,
    ensures
        written(writer, deliveries(messages) + seq![WriterEventView::Lagged(missed)] + later).len()
            == messages.len(),
        forall|i: int|
            0 <= i < messages.len() ==> #[trigger] written(
                writer,
                deliveries(messages) + seq![WriterEventView::Lagged(missed)] + later,
            )[i] == outbound_text(writer.id, messages[i]),
        writer_after(writer, deliveries(messages) + seq![WriterEventView::Lagged(missed)] + later).state
            == TaskState::Closed,
{
    lemma_fault_ends_writer(writer, deliveries(messages), WriterEventView::Lagged(missed), later);
    lemma_every_delivery_is_written(writer, messages);
}

} // verus!
