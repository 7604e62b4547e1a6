//! The wire protocol: messages as they travel on the bus, and the text lines
//! that the server writes to a client.
//!
//! Every line ends in a line feed. A client reads, in order: one login line,
//! then for each line that any connection sent either an acknowledgement (the
//! line was its own) or a relay line that names the sender.

use vstd::prelude::*;
use vstd::string::*;
use crate::decimal::{decimal, lemma_decimal_digits, render};

verus! {

/// One line of text that a connection sent, tagged with the identifier of
/// that connection.
#[derive(Clone, Debug)]
pub struct Message {
    pub payload: String,
    pub source: u16,
}

/// What a [`Message`] holds, as plain values.
pub struct MessageView {
    pub payload: Seq<char>,
    pub source: u16,
}

impl View for Message {
    type V = MessageView;

    open spec fn view(&self) -> MessageView {
        MessageView { payload: self.payload@, source: self.source }
    }
}

/// The line that greets a new connection with its identifier.
pub open spec fn login_text(id: u16) -> Seq<char> {
    "LOGIN:"@ + decimal(id as nat) + "\n"@
}

/// The line that answers a connection's own message.
pub open spec fn ack_text() -> Seq<char> {
    "ACK:MESSAGE\n"@
}

/// The line that carries `payload`, sent by `source`, to another connection.
pub open spec fn relay_text(source: u16, payload: Seq<char>) -> Seq<char> {
    "MESSAGE:"@ + decimal(source as nat) + " "@ + payload + "\n"@
}

/// The line that connection `id` is sent for `message`: an acknowledgement
/// of its own message, a relay line for anyone else's.
pub open spec fn outbound_text(id: u16, message: MessageView) -> Seq<char> {
    if message.source == id {
        ack_text()
    } else {
        relay_text(message.source, message.payload)
    }
}

/// Builds the login line for connection `id`.
pub fn login_line(id: u16) -> (line: String)
    ensures
        line@ == login_text(id),
{
    let mut line = String::from_str("LOGIN:");
    line.append(render(id).as_str());
    line.append("\n");
    line
}

/// Builds the acknowledgement line.
pub fn ack_line() -> (line: String)
    ensures
        line@ == ack_text(),
{
    String::from_str("ACK:MESSAGE\n")
}

/// Builds the relay line for `payload` as sent by `source`.
pub fn relay_line(source: u16, payload: &str) -> (line: String)
    ensures
        line@ == relay_text(source, payload@),
{
    let mut line = String::from_str("MESSAGE:");
    line.append(render(source).as_str());
    line.append(" ");
    line.append(payload);
    line.append("\n");
    line
}

/// Builds the line that connection `id` is sent for `message`.
pub fn outbound_line(id: u16, message: &Message) -> (line: String)
    ensures
        line@ == outbound_text(id, message@),
{
    if message.source == id {
        ack_line()
    } else {
        relay_line(message.source, message.payload.as_str())
    }
}

/// Whether `text` is one line on the wire: it ends in a line feed and holds
/// no other.
pub open spec fn is_one_line(text: Seq<char>) -> bool {
    &&& text.len() > 0
    &&& text.last() == '\n'
    &&& forall|i: int| 0 <= i < text.len() - 1 ==> text[i] != '\n'
}

/// The login line is one line.
pub proof fn lemma_login_is_one_line(id: u16)
    ensures
        is_one_line(login_text(id)),
{
    reveal_strlit("LOGIN:");
    reveal_strlit("\n");
    lemma_decimal_digits(id as nat);
}

/// The acknowledgement line is one line.
pub proof fn lemma_ack_is_one_line()
    ensures
        is_one_line(ack_text()),
{
    reveal_strlit("ACK:MESSAGE\n");
}

/// A relay line is one line, provided that the text it carries holds no
/// line feed.
pub proof fn lemma_relay_is_one_line(source: u16, payload: Seq<char>)
    requires
        !payload.contains('\n'),
    ensures
        is_one_line(relay_text(source, payload)),
{
    reveal_strlit("MESSAGE:");
    reveal_strlit(" ");
    reveal_strlit("\n");
    lemma_decimal_digits(source as nat);
}

/// What a connection is sent for a message is one line, provided that the
/// message's text holds no line feed.
pub proof fn lemma_outbound_is_one_line(id: u16, message: MessageView)
    requires
        !message.payload.contains('\n'),
    ensures
        is_one_line(outbound_text(id, message)),
{
    if message.source == id {
        lemma_ack_is_one_line();
    } else {
        lemma_relay_is_one_line(message.source, message.payload);
    }
}

} // verus!
