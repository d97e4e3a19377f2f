//! The notification channel: `tokio`'s broadcast channel with `String`
//! payloads, and what this crate takes for granted about it.
//!
//! A channel has one write end, a [`Sender`], and any number of read ends,
//! [`Receiver`]s, each with a cursor of its own into the shared ring buffer.
//! Verus sees neither type from the inside. Three things about them are
//! given names here, and the contracts of the wrappers below say how the
//! channel's methods act on those names. None of these contracts is proved.
use tokio::sync::broadcast::{channel, Receiver, Sender};
use vstd::prelude::*;

verus! {

/// `tokio::sync::broadcast::Sender`, the write end, as a type that Verus
/// does not look into.
#[verifier::external_type_specification]
#[verifier::external_body]
#[verifier::reject_recursive_types(T)]
pub struct ExSender<T>(Sender<T>);

/// `tokio::sync::broadcast::Receiver`, a read end, as a type that Verus does
/// not look into.
#[verifier::external_type_specification]
#[verifier::external_body]
#[verifier::reject_recursive_types(T)]
pub struct ExReceiver<T>(Receiver<T>);

/// The channel that a write end belongs to. Which number stands for a channel
/// is left open; two ends have the same one exactly if they share their
/// channel state.
pub uninterp spec fn sender_channel(tx: Sender<String>) -> int;

/// The channel that a read end belongs to, numbered as by [`sender_channel`].
pub uninterp spec fn receiver_channel(rx: Receiver<String>) -> int;

/// The values that a channel has taken in through this write end, oldest
/// first. The ring buffer retains the newest of them.
pub uninterp spec fn published(tx: Sender<String>) -> Seq<Seq<char>>;

/// The cursor of a read end: the position in its channel of the value that
/// it reads next. Positions count the values that the channel has taken in,
/// and start again from zero after `u64::MAX`.
pub uninterp spec fn receiver_cursor(rx: Receiver<String>) -> u64;

/// Why a read that does not wait returned no value.
#[derive(Clone, Copy, Debug, PartialEq, Eq, Structural)]
pub enum TryRecvError {
    /// No value is waiting; the write end is still there.
    Empty,
    /// The write end is gone and every retained value has been read.
    Closed,
    /// The cursor was overwritten: this many values were skipped. The cursor
    /// now stands at the oldest retained value.
    Lagged(u64),
}

/// The position that follows `count` values: their number, which starts
/// again from zero after `u64::MAX`.
pub open spec fn position_after(count: nat) -> u64 {
    (count % 0x1_0000_0000_0000_0000) as u64
}

/// Whether a read that does not wait and came to `read` can have moved the
/// cursor of its read end from `before` to `after`.
///
/// A value moves the cursor by one. A lag moves it by the number of values
/// that were skipped, which is not zero. An empty channel leaves it where it
/// was. So does a closed one, unless the slot that the cursor stood at was
/// there but held no value any more: then the cursor has gone past it.
pub open spec fn cursor_moved(before: u64, read: Result<String, TryRecvError>, after: u64) -> bool {
    match read {
        Ok(_) => after == before.wrapping_add(1),
        Err(TryRecvError::Lagged(skipped)) => skipped != 0 && after == before.wrapping_add(skipped),
        Err(TryRecvError::Empty) => after == before,
        Err(TryRecvError::Closed) => after == before || after == before.wrapping_add(1),
    }
}

/// Why a read that waits returned no value.
#[derive(Clone, Copy, Debug, PartialEq, Eq, Structural)]
pub enum RecvError {
    /// The write end is gone and every retained value has been read.
    Closed,
    /// The cursor was overwritten: this many values were skipped. The cursor
    /// now stands at the oldest retained value.
    Lagged(u64),
}

/// Calls `tokio::sync::broadcast::channel` and keeps the write end; the read
/// end that comes with it is dropped. Claims that nothing has been published
/// through a write end that was just made. `channel` panics on a capacity of
/// zero or above `usize::MAX / 2`, which `requires` leaves out.
#[verifier::external_body]
pub(crate) fn open_channel(capacity: usize) -> (tx: Sender<String>)
    requires
        0 < capacity <= usize::MAX / 2,
    ensures
        published(tx) == Seq::<Seq<char>>::empty(),
{
    channel(capacity).0
}

/// Calls `Sender::subscribe`. Claims that the new read end belongs to the
/// channel of the write end, and that its cursor stands behind all that the
/// channel has taken in: `subscribe` sets it to the position that the next
/// value will get, which is zero in a new channel and goes up by one with
/// each value taken in. `subscribe` panics where a channel already has
/// `usize::MAX / 4` read ends, which is more than a process can hold.
#[verifier::external_body]
pub(crate) fn sender_subscribe(tx: &Sender<String>) -> (rx: Receiver<String>)
    ensures
        receiver_channel(rx) == sender_channel(*tx),
        receiver_cursor(rx) == position_after(published(*tx).len()),
{
    tx.subscribe()
}

/// Calls `Sender::receiver_count`. The number of live read ends changes as
/// other owners drop theirs, so nothing is claimed of it.
#[verifier::external_body]
pub(crate) fn sender_receiver_count(tx: &Sender<String>) -> (count: usize) {
    tx.receiver_count()
}

/// Calls `Sender::send`. Claims that the write end stays on its channel, that
/// on `Ok` the value is the newest published one, and that on `Err`, which
/// happens when no read end is left, nothing was published and the value
/// comes back.
#[verifier::external_body]
pub(crate) fn sender_send(tx: &mut Sender<String>, value: String) -> (sent: Result<usize, String>)
    ensures
        sender_channel(*final(tx)) == sender_channel(*old(tx)),
        sent is Ok ==> published(*final(tx)) == published(*old(tx)).push(value@),
        sent is Err ==> published(*final(tx)) == published(*old(tx)) && sent->Err_0@ == value@,
{
    match tx.send(value) {
        Ok(receivers) => Ok(receivers),
        Err(unsent) => Err(unsent.0),
    }
}

/// Calls `Receiver::is_empty`. Another thread may publish at any time, so
/// nothing is claimed of the answer.
#[verifier::external_body]
pub(crate) fn receiver_is_empty(rx: &Receiver<String>) -> (empty: bool) {
    rx.is_empty()
}

/// Calls `Receiver::len`. Another thread may publish at any time, so nothing
/// is claimed of the answer.
#[verifier::external_body]
pub(crate) fn receiver_len(rx: &Receiver<String>) -> (len: usize) {
    rx.len()
}

/// Calls `Receiver::resubscribe`. Claims that the new read end belongs to the
/// same channel. As `Sender::subscribe` does, it panics where a channel
/// already has `usize::MAX / 4` read ends.
#[verifier::external_body]
pub(crate) fn receiver_resubscribe(rx: &Receiver<String>) -> (fresh: Receiver<String>)
    ensures
        receiver_channel(fresh) == receiver_channel(*rx),
{
    rx.resubscribe()
}

/// Calls `Receiver::same_channel`. Claims that it tells whether the two read
/// ends belong to one channel.
#[verifier::external_body]
pub(crate) fn receiver_same_channel(rx: &Receiver<String>, other: &Receiver<String>) -> (same: bool)
    ensures
        same == (receiver_channel(*rx) == receiver_channel(*other)),
{
    rx.same_channel(other)
}

/// Calls `Receiver::try_recv` and hands its error on variant by variant.
/// Claims that the read end stays on its channel, and that its cursor moves
/// as [`cursor_moved`] says: `try_recv` adds one to it where it finds the
/// slot of that position, sets it forward by what it reports where it has
/// lagged, and returns before it touches it where the channel is empty or
/// closed. Which of these happens, and which value is read, depends on what
/// other owners have published, so nothing is claimed of that.
#[verifier::external_body]
pub(crate) fn receiver_try_recv(rx: &mut Receiver<String>) -> (read: Result<String, TryRecvError>)
    ensures
        receiver_channel(*final(rx)) == receiver_channel(*old(rx)),
        cursor_moved(receiver_cursor(*old(rx)), read, receiver_cursor(*final(rx))),
{
    match rx.try_recv() {
        Ok(value) => Ok(value),
        Err(tokio::sync::broadcast::error::TryRecvError::Empty) => Err(TryRecvError::Empty),
        Err(tokio::sync::broadcast::error::TryRecvError::Closed) => Err(TryRecvError::Closed),
        Err(tokio::sync::broadcast::error::TryRecvError::Lagged(n)) => Err(TryRecvError::Lagged(n)),
    }
}

} // verus!
