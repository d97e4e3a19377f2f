//! Consumer handles: the read ends of a subscription's channel.
use crate::channel::{
    cursor_moved, receiver_channel, receiver_cursor, receiver_is_empty, receiver_len,
    receiver_resubscribe, receiver_same_channel, receiver_try_recv, TryRecvError,
};
use crate::id::LocalId;
use core::marker::PhantomData;
use tokio::sync::broadcast::Receiver;
use vstd::prelude::*;

verus! {

/// A feed of notifications from the server, identified by a local identity.
///
/// It is one read end of the channel of its subscription, with a cursor of
/// its own.
#[derive(Debug)]
pub struct RawSubscription {
    /// The channel via which notifications are received.
    rx: Receiver<String>,
    /// The local identity of the subscription.
    local_id: LocalId,
}

/// What a handle is to the registry: which subscription it belongs to, and
/// which channel it reads from.
pub struct HandleView {
    /// The local identity of the subscription.
    pub id: LocalId,
    /// The channel that the handle reads from.
    pub channel: int,
}

impl View for RawSubscription {
    type V = HandleView;

    closed spec fn view(&self) -> HandleView {
        HandleView { id: self.local_id, channel: receiver_channel(self.rx) }
    }
}

impl RawSubscription {
    /// The cursor of this handle: the position in the channel of the value
    /// that it reads next.
    pub closed spec fn cursor(&self) -> u64 {
        receiver_cursor(self.rx)
    }

    /// A handle for the subscription `local_id` that reads through `rx`.
    pub(crate) fn new(rx: Receiver<String>, local_id: LocalId) -> (sub: Self)
        ensures
            sub@ == (HandleView { id: local_id, channel: receiver_channel(rx) }),
            sub.cursor() == receiver_cursor(rx),
    {
        RawSubscription { rx, local_id }
    }

    /// Get the local identity of the subscription.
    pub fn local_id(&self) -> (id: LocalId)
        ensures
            id == self@.id,
    {
        self.local_id
    }

    /// The read end itself, for the reads that wait. Whatever the caller does
    /// with it, the handle keeps its local identity.
    pub fn receiver_mut(&mut self) -> (rx: &mut Receiver<String>)
        ensures
            receiver_channel(*rx) == old(self)@.channel,
            final(self)@ == (HandleView { id: old(self)@.id, channel: receiver_channel(*final(rx)) }),
    {
        &mut self.rx
    }

    /// Returns `true` if there are currently no notifications to receive.
    pub fn is_empty(&self) -> bool {
        receiver_is_empty(&self.rx)
    }

    /// Returns the number of messages in the channel that this handle has
    /// yet to receive.
    pub fn len(&self) -> usize {
        receiver_len(&self.rx)
    }

    /// Create a new handle on the same subscription, which sees only what is
    /// published from now on.
    pub fn resubscribe(&self) -> (fresh: Self)
        ensures
            fresh@ == self@,
    {
        RawSubscription { rx: receiver_resubscribe(&self.rx), local_id: self.local_id }
    }

    /// Returns `true` if the two handles read from the same channel.
    pub fn same_channel(&self, other: &Self) -> (same: bool)
        ensures
            same == (self@.channel == other@.channel),
    {
        receiver_same_channel(&self.rx, &other.rx)
    }

    /// Attempt to receive a message from the channel without waiting.
    ///
    /// The handle stays on its subscription and its channel. Its cursor goes
    /// past the value that was read, or past the values that a lag skipped:
    /// after a lag it stands at the oldest value that is still retained. A
    /// read that found the channel empty leaves it where it was.
    pub fn try_recv(&mut self) -> (read: Result<String, TryRecvError>)
        ensures
            final(self)@ == old(self)@,
            cursor_moved(old(self).cursor(), read, final(self).cursor()),
    {
        receiver_try_recv(&mut self.rx)
    }
}

/// An item in a typed [`Subscription`]. This is either the expected type, or
/// the payload of some value of another type.
#[derive(Debug)]
pub enum SubscriptionItem<T> {
    /// The expected item.
    Item(T),
    /// Some other value, as the JSON text that was received.
    Other(String),
}

impl<T> SubscriptionItem<T> {
    /// The item that a payload stands for, given what decoding it as the
    /// expected type came to: the decoded value, or else the payload itself.
    pub open spec fn classify<E>(value: String, decoded: Result<T, E>) -> Self {
        match decoded {
            Ok(item) => SubscriptionItem::Item(item),
            Err(_) => SubscriptionItem::Other(value),
        }
    }

    /// Turns a payload and the outcome of decoding it into an item. The
    /// payload is kept if, and only if, it did not decode.
    pub fn from_decoded<E>(value: String, decoded: Result<T, E>) -> (item: Self)
        ensures
            item == Self::classify(value, decoded),
    {
        match decoded {
            Ok(item) => SubscriptionItem::Item(item),
            Err(_) => SubscriptionItem::Other(value),
        }
    }
}

/// What strict consumption makes of one read: `None` where the payload was
/// of another type and the next one has to be read, and else the end of the
/// call, with the item or with the channel's error.
pub open spec fn strict_outcome<T, E>(read: Result<SubscriptionItem<T>, E>) -> Option<Result<T, E>> {
    match read {
        Ok(SubscriptionItem::Item(item)) => Some(Ok(item)),
        Ok(SubscriptionItem::Other(_)) => None,
        Err(error) => Some(Err(error)),
    }
}

/// A feed of notifications from the server of a specific type `T`,
/// identified by a local identity.
///
/// It can be consumed in three ways. Strict consumption discards payloads
/// that do not decode as `T`; [`Subscription::strict_step`] decides when it
/// is done. Tagged consumption yields them as [`SubscriptionItem::Other`];
/// [`SubscriptionItem::from_decoded`] makes the item. The third way hands out
/// what decoding came to, as it is.
#[derive(Debug)]
pub struct Subscription<T> {
    inner: RawSubscription,
    _pd: PhantomData<T>,
}

impl<T> View for Subscription<T> {
    type V = HandleView;

    closed spec fn view(&self) -> HandleView {
        self.inner@
    }
}

impl<T> From<RawSubscription> for Subscription<T> {
    fn from(inner: RawSubscription) -> (sub: Self) {
        Subscription { inner, _pd: PhantomData }
    }
}

impl<T> vstd::std_specs::convert::FromSpecImpl<RawSubscription> for Subscription<T> {
    open spec fn obeys_from_spec() -> bool {
        true
    }

    closed spec fn from_spec(inner: RawSubscription) -> Self {
        Subscription { inner, _pd: PhantomData }
    }
}

impl<T> Subscription<T> {
    /// The untyped handle inside.
    pub closed spec fn raw(&self) -> RawSubscription {
        self.inner
    }

    /// The typed subscription that `from` makes of an untyped handle is that
    /// handle, wrapped: it has the handle inside, and its view.
    pub proof fn lemma_from_wraps(inner: RawSubscription)
        ensures
            <Self as vstd::std_specs::convert::FromSpec<RawSubscription>>::from_spec(inner).raw() == inner,
            <Self as vstd::std_specs::convert::FromSpec<RawSubscription>>::from_spec(inner)@ == inner@,
    {
    }

    /// Get the local identity of the subscription.
    pub fn local_id(&self) -> (id: LocalId)
        ensures
            id == self@.id,
    {
        self.inner.local_id()
    }

    /// Convert the subscription into its inner [`RawSubscription`].
    pub fn into_raw(self) -> (raw: RawSubscription)
        ensures
            raw == self.raw(),
    {
        self.inner
    }

    /// Get a reference to the inner subscription.
    pub fn inner(&self) -> (raw: &RawSubscription)
        ensures
            *raw == self.raw(),
    {
        &self.inner
    }

    /// Get a mutable reference to the inner subscription.
    pub fn inner_mut(&mut self) -> (raw: &mut RawSubscription)
        ensures
            *raw == old(self).raw(),
            final(self).raw() == *final(raw),
    {
        &mut self.inner
    }

    /// Returns `true` if there are currently no notifications to receive.
    pub fn is_empty(&self) -> bool {
        self.inner.is_empty()
    }

    /// Returns the number of messages in the channel that this handle has
    /// yet to receive.
    ///
    /// This count may include messages of unexpected types that will be
    /// discarded upon receipt.
    pub fn len(&self) -> usize {
        self.inner.len()
    }

    /// Create a new [`RawSubscription`] on the same subscription, which sees
    /// only what is published from now on.
    pub fn resubscribe_inner(&self) -> (fresh: RawSubscription)
        ensures
            fresh@ == self@,
    {
        self.inner.resubscribe()
    }

    /// Create a new `Subscription` on the same subscription, which sees only
    /// what is published from now on.
    pub fn resubscribe(&self) -> (fresh: Self)
        ensures
            fresh@ == self@,
    {
        Subscription { inner: self.inner.resubscribe(), _pd: PhantomData }
    }

    /// Returns `true` if the two subscriptions read from the same channel.
    pub fn same_channel<U>(&self, other: &Subscription<U>) -> (same: bool)
        ensures
            same == (self@.channel == other@.channel),
    {
        self.inner.same_channel(&other.inner)
    }

    /// One step of strict consumption: given what was read and decoded,
    /// either the call is over, with an item of the expected type or with the
    /// channel's error, or the payload is discarded and the next one is to be
    /// read.
    pub fn strict_step<E>(read: Result<SubscriptionItem<T>, E>) -> (outcome: Option<Result<T, E>>)
        ensures
            outcome == strict_outcome(read),
    {
        match read {
            Ok(SubscriptionItem::Item(item)) => Some(Ok(item)),
            Ok(SubscriptionItem::Other(_)) => None,
            Err(error) => Some(Err(error)),
        }
    }
}

} // verus!
