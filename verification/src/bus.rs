//! The message bus: one broadcast channel that every connection publishes to
//! and subscribes to.
//!
//! The channel is tokio's `sync::broadcast`. It is shared between tasks, so
//! what it holds at a given moment is not a function of any one handle, and
//! the contracts here say nothing of its contents: they keep the calls free
//! of panics, fix what is handed over, and say how many messages the channel
//! keeps, which is settled when it is made.

use vstd::prelude::*;
use vstd::arithmetic::power2::is_pow2;
use tokio::sync::broadcast::{Receiver, Sender};
use crate::wire::Message;

verus! {

/// How many messages the bus keeps for a subscriber that does not read.
/// A subscriber that falls further behind loses the oldest ones and is told
/// so by a lag fault on its next receive.
pub const DEPTH: usize = 16;

/// The publishing handle of tokio's broadcast channel, opaque to the verifier.
#[verifier::external_type_specification]
#[verifier::external_body]
#[verifier::reject_recursive_types(T)]
pub struct ExSender<T>(tokio::sync::broadcast::Sender<T>);

/// The subscribing handle of tokio's broadcast channel, opaque to the verifier.
#[verifier::external_type_specification]
#[verifier::external_body]
#[verifier::reject_recursive_types(T)]
pub struct ExReceiver<T>(tokio::sync::broadcast::Receiver<T>);

/// How many messages the channel behind `bus` keeps for a receiver that
/// does not read: the length of its ring buffer, which tokio fixes when the
/// channel is made.
pub uninterp spec fn depth_of(bus: Sender<Message>) -> nat;

/// `tokio::sync::broadcast::channel` panics on a capacity of zero and on one
/// above `usize::MAX / 2`; both are kept out. It rounds the capacity up to
/// the next power of two and makes the ring buffer that long: the depth is
/// the one power of two that is at least the capacity and less than twice
/// the capacity. Nothing else is claimed of the two handles.
#[verifier::external_body]
fn channel(capacity: usize) -> (ends: (Sender<Message>, Receiver<Message>))
    requires
        0 < capacity <= usize::MAX / 2,
    ensures
        is_pow2(depth_of(ends.0) as int),
        capacity <= depth_of(ends.0) < 2 * capacity,
{
    tokio::sync::broadcast::channel(capacity)
}

/// `tokio::sync::broadcast::Sender::subscribe` returns a new receiving
/// handle. Nothing is claimed of it. The call panics once the channel counts
/// `usize::MAX / 4` receivers; live receivers cannot come to that many,
/// since they would not fit in memory, and this crate leaks none.
pub assume_specification<T>[ tokio::sync::broadcast::Sender::<T>::subscribe ](
    sender: &Sender<T>,
) -> (receiver: Receiver<T>)
;

/// `Clone::clone` of `tokio::sync::broadcast::Sender` returns another handle.
/// Nothing is claimed of it.
pub assume_specification<T>[ <tokio::sync::broadcast::Sender<T> as Clone>::clone ](
    sender: &Sender<T>,
) -> (other: Sender<T>)
;

/// `tokio::sync::broadcast::Sender::send` fails only when the channel has no
/// receiver, and then hands the value back; when it succeeds it returns the
/// number of receivers, which is at least one.
#[verifier::external_body]
fn send(bus: &Sender<Message>, message: Message) -> (outcome: Result<usize, Message>)
    ensures
        outcome matches Ok(receivers) ==> receivers >= 1,
        outcome matches Err(unsent) ==> unsent == message,
{
    match bus.send(message) {
        Ok(receivers) => Ok(receivers),
        Err(error) => Err(error.0),
    }
}

/// Opens the bus of one server run and returns its publishing handle. The
/// bus keeps exactly [`DEPTH`] unread messages per subscriber: [`DEPTH`] is
/// a power of two, so the channel's rounding adds nothing to it. The bus
/// starts without subscribers.
pub fn open() -> (bus: Sender<Message>)
    ensures
        depth_of(bus) == DEPTH,
{
    let (bus, _first) = channel(DEPTH);
    proof {
        lemma_power_of_two_from_sixteen(depth_of(bus) as int);
    }
    bus
}

/// Sixteen is the only power of two from sixteen up to, but not including,
/// thirty-two.
proof fn lemma_power_of_two_from_sixteen(n: int)
    requires
        is_pow2(n),
        16 <= n < 32,
    ensures
        n == 16,
{
    reveal_with_fuel(is_pow2, 6);
}

/// Hands `message` to every subscription that is live at this moment. With
/// no subscriber this does nothing; that is no error.
pub fn publish(bus: &Sender<Message>, message: Message)
{
    let _ = send(bus, message);
}

} // verus!
