//! The record of one live subscription.
use crate::channel::{
    open_channel, position_after, published, sender_channel, sender_receiver_count, sender_send,
    sender_subscribe,
};
use crate::id::LocalId;
use crate::request::SubscriptionRequest;
use crate::sub::{HandleView, RawSubscription};
use tokio::sync::broadcast::Sender;
use vstd::prelude::*;

verus! {

/// How many notifications the channel of a subscription retains for a handle
/// that has fallen behind.
pub const CHANNEL_CAPACITY: usize = 16;

/// A live subscription: its request, the local identity that the request
/// hashes to, and the write end of its channel.
#[derive(Debug)]
pub struct ActiveSubscription {
    /// Cached hash of the request.
    local_id: LocalId,
    /// The subscribe request, kept so that it can be sent again.
    request: SubscriptionRequest,
    /// The channel via which notifications are broadcast.
    tx: Sender<String>,
}

/// What a record is to the registry.
pub struct RecordView {
    /// The local identity of the subscription.
    pub id: LocalId,
    /// The request that asked for the subscription.
    pub request: SubscriptionRequest,
    /// The channel of the subscription.
    pub channel: int,
    /// The payloads that the channel has taken in so far, oldest first.
    pub published: Seq<Seq<char>>,
}

impl RecordView {
    /// The local identity is the one that the request hashes to.
    pub open spec fn wf(self) -> bool {
        self.id == self.request.local_id()
    }

    /// This record after its channel has taken in `payload`.
    pub open spec fn publish(self, payload: Seq<char>) -> RecordView {
        RecordView { published: self.published.push(payload), ..self }
    }

    /// The view of a handle that reads from this record's channel.
    pub open spec fn handle(self) -> HandleView {
        HandleView { id: self.id, channel: self.channel }
    }
}

impl View for ActiveSubscription {
    type V = RecordView;

    closed spec fn view(&self) -> RecordView {
        RecordView {
            id: self.local_id,
            request: self.request,
            channel: sender_channel(self.tx),
            published: published(self.tx),
        }
    }
}

impl ActiveSubscription {
    /// Create a new active subscription: hash the request and open a channel
    /// through which nothing has been published yet.
    pub fn new(request: SubscriptionRequest) -> (active: Self)
        ensures
            active@.wf(),
            active@.request == request,
            active@.published == Seq::<Seq<char>>::empty(),
    {
        let local_id = request.params_hash();
        let tx = open_channel(CHANNEL_CAPACITY);
        ActiveSubscription { request, local_id, tx }
    }

    /// The local identity of the subscription.
    pub fn local_id(&self) -> (id: LocalId)
        ensures
            id == self@.id,
    {
        self.local_id
    }

    /// The request, as it is sent over the transport again after a
    /// reconnect.
    pub fn request(&self) -> (request: &SubscriptionRequest)
        ensures
            *request == self@.request,
    {
        &self.request
    }

    /// Get a handle: a new read end of this record's channel, which sees only
    /// what is published from now on. Its cursor stands behind all that has
    /// been published so far.
    pub fn subscribe(&self) -> (sub: RawSubscription)
        ensures
            sub@ == self@.handle(),
            sub.cursor() == position_after(self@.published.len()),
    {
        RawSubscription::new(sender_subscribe(&self.tx), self.local_id)
    }

    /// Whether a notification is handed to a channel with this many handles:
    /// it is, unless there is none.
    pub fn is_heard(handles: usize) -> (heard: bool)
        ensures
            heard == (handles > 0),
    {
        handles > 0
    }

    /// Notify the subscription channel of a new value, given how many handles
    /// it has: with none, the notification is dropped and nothing changes;
    /// else it is handed to the channel, which takes it in as it came, or not
    /// at all where the handles have gone in the meantime.
    pub fn notify_heard(&mut self, handles: usize, notification: String)
        ensures
            handles == 0 ==> final(self)@ == old(self)@,
            final(self)@ == old(self)@ || final(self)@ == old(self)@.publish(notification@),
    {
        if Self::is_heard(handles) {
            let _ = sender_send(&mut self.tx, notification);
        }
    }

    /// Notify the subscription channel of a new value, if any handle exists.
    /// If none exists, the notification is dropped.
    ///
    /// How many handles exist is for the channel to say, so either of the two
    /// can have happened.
    pub fn notify(&mut self, notification: String)
        ensures
            final(self)@ == old(self)@ || final(self)@ == old(self)@.publish(notification@),
    {
        let handles = sender_receiver_count(&self.tx);
        self.notify_heard(handles, notification)
    }
}

} // verus!
