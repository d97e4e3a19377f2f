//! The registry: which subscriptions are live, and which server identity
//! each of them currently has.
use crate::bijection::{
    bimap_clear, bimap_get_by_right, bimap_insert, bimap_new, bimap_remove_by_left, pairs, Words,
};
use crate::channel::position_after;
use crate::id::{LocalId, ServerId};
use crate::managers::active_sub::{ActiveSubscription, RecordView};
use crate::request::{Notification, SubscriptionRequest};
use crate::sub::{HandleView, RawSubscription};
use bimap::BiBTreeMap;
use std::collections::BTreeMap;
use vstd::prelude::*;
use vstd::std_specs::cmp::OrdSpec;
use vstd::std_specs::iter::IteratorSpec;

verus! {

broadcast use {vstd::std_specs::btree::group_btree_axioms, vstd::laws_cmp::group_laws_cmp};

/// The registry of live subscriptions.
///
/// It knows a subscription by two identities: the one that the server gave
/// it, which holds for one connection, and the local one, which holds for as
/// long as the subscription lives.
#[derive(Debug)]
pub struct SubscriptionManager {
    /// The subscriptions, by local identity.
    local_to_sub: BTreeMap<Words, ActiveSubscription>,
    /// Tracks the current server identity of a subscription.
    local_to_server: BiBTreeMap<Words, Words>,
}

/// What the registry holds.
pub struct RegistryView {
    /// The record of each live subscription.
    pub subs: Map<LocalId, RecordView>,
    /// The current server identity of each subscription that has one.
    pub server_ids: Map<LocalId, ServerId>,
}

/// What `server_ids` becomes when `id` is given the server identity
/// `server_id`: `id` loses the one it had, the subscription that had
/// `server_id` loses it, and `id` has it.
pub open spec fn rotated(server_ids: Map<LocalId, ServerId>, id: LocalId, server_id: ServerId) -> Map<
    LocalId,
    ServerId,
> {
    Map::new(
        |l: LocalId| l == id || (server_ids.contains_key(l) && server_ids[l] != server_id),
        |l: LocalId|
            if l == id {
                server_id
            } else {
                server_ids[l]
            },
    )
}

impl RegistryView {
    /// The registry without subscriptions.
    pub open spec fn empty() -> RegistryView {
        RegistryView { subs: Map::empty(), server_ids: Map::empty() }
    }

    /// What holds of the registry at all times: every record is kept under
    /// its own local identity, which is the one that its request hashes to;
    /// no two subscriptions have the same server identity; and only live
    /// subscriptions have one.
    pub open spec fn wf(self) -> bool {
        &&& forall|id: LocalId| #[trigger]
            self.subs.contains_key(id) ==> self.subs[id].id == id && self.subs[id].wf()
        &&& self.server_ids.is_injective()
        &&& self.server_ids.dom().subset_of(self.subs.dom())
    }

    /// The subscription that currently has the server identity `server_id`.
    pub open spec fn local_id_for(self, server_id: ServerId) -> Option<LocalId> {
        if exists|id: LocalId| self.server_ids.contains_pair(id, server_id) {
            Some(choose|id: LocalId| self.server_ids.contains_pair(id, server_id))
        } else {
            None
        }
    }

    /// The view of a new handle on the subscription `id`, if it is live.
    pub open spec fn get_subscription(self, id: LocalId) -> Option<HandleView> {
        if self.subs.contains_key(id) {
            Some(self.subs[id].handle())
        } else {
            None
        }
    }

    /// Whether `post` and `handle` can come of an upsert of `request` with
    /// `server_id`.
    ///
    /// The subscription is the one that the request hashes to. If it is live,
    /// its record stays as it is, and the request is dropped. If it is not, it
    /// gets a record with this request and with a channel through which
    /// nothing has been published. Either way it is given `server_id`, no
    /// other record changes, and the handle reads from the channel of its
    /// record.
    pub open spec fn upsert_to(
        self,
        request: SubscriptionRequest,
        server_id: ServerId,
        post: RegistryView,
        handle: HandleView,
    ) -> bool {
        let id = request.local_id();
        &&& post.subs.contains_key(id)
        &&& post.subs == self.subs.insert(id, post.subs[id])
        &&& if self.subs.contains_key(id) {
            post.subs[id] == self.subs[id]
        } else {
            &&& post.subs[id].id == id
            &&& post.subs[id].request == request
            &&& post.subs[id].published == Seq::<Seq<char>>::empty()
        }
        &&& post.server_ids == rotated(self.server_ids, id, server_id)
        &&& handle == post.subs[id].handle()
    }

    /// The registry after the connection was lost: no subscription has a
    /// server identity, and every record is as it was.
    pub open spec fn drop_server_ids(self) -> RegistryView {
        RegistryView { subs: self.subs, server_ids: Map::empty() }
    }

    /// The registry without the subscription `id`.
    pub open spec fn remove_sub(self, id: LocalId) -> RegistryView {
        RegistryView { subs: self.subs.remove(id), server_ids: self.server_ids.remove(id) }
    }

    /// Whether `post` can come of the notification `payload` for the server
    /// identity `server_id`.
    ///
    /// If a live subscription has that server identity, its channel may have
    /// taken the payload in, and nothing else changes. If none has, nothing
    /// changes at all.
    pub open spec fn notify_to(self, server_id: ServerId, payload: Seq<char>, post: RegistryView) -> bool {
        match self.local_id_for(server_id) {
            Some(id) if self.subs.contains_key(id) => {
                &&& post.server_ids == self.server_ids
                &&& (post.subs == self.subs || post.subs == self.subs.insert(
                    id,
                    self.subs[id].publish(payload),
                ))
            },
            _ => post == self,
        }
    }
}

impl View for SubscriptionManager {
    type V = RegistryView;

    closed spec fn view(&self) -> RegistryView {
        RegistryView {
            subs: Map::new(
                |id: LocalId| self.local_to_sub@.contains_key(id.words()),
                |id: LocalId| self.local_to_sub@[id.words()]@,
            ),
            server_ids: Map::new(
                |id: LocalId| pairs(self.local_to_server).contains_key(id.words()),
                |id: LocalId| ServerId::at(pairs(self.local_to_server)[id.words()]),
            ),
        }
    }
}

impl Default for SubscriptionManager {
    fn default() -> (manager: Self)
        ensures
            manager@ == RegistryView::empty(),
            manager@.wf(),
    {
        SubscriptionManager::new()
    }
}

impl SubscriptionManager {
    /// A registry without subscriptions.
    pub fn new() -> (manager: Self)
        ensures
            manager@ == RegistryView::empty(),
            manager@.wf(),
    {
        let manager = SubscriptionManager { local_to_sub: BTreeMap::new(), local_to_server: bimap_new() };
        assert(manager@.subs =~= Map::empty());
        assert(manager@.server_ids =~= Map::empty());
        manager
    }

    /// The live subscriptions are as many as the map of records has keys.
    proof fn lemma_subs_len(&self)
        ensures
            self@.subs.dom().finite(),
            self@.subs.len() == self.local_to_sub@.len(),
    {
        let keys = self.local_to_sub@.dom();
        let at = |words: Words| LocalId::at(words);
        assert(keys.map(at) =~= self@.subs.dom()) by {
            assert forall|id: LocalId| self@.subs.dom().contains(id) implies keys.map(at).contains(id) by {
                assert(keys.contains(id.words()) && at(id.words()) == id);
            }
        }
        vstd::set_lib::lemma_map_size(keys, self@.subs.dom(), at);
    }

    /// Get the number of subscriptions. There are finitely many.
    pub fn len(&self) -> (len: usize)
        ensures
            self@.subs.dom().finite(),
            len == self@.subs.len(),
    {
        proof {
            self.lemma_subs_len();
        }
        self.local_to_sub.len()
    }

    /// The local identities of the subscriptions, each once, in ascending
    /// order.
    pub fn local_ids(&self) -> (ids: Vec<LocalId>)
        ensures
            ids@.no_duplicates(),
            ids@.to_set() == self@.subs.dom(),
            forall|i: int, j: int| 0 <= i < j < ids@.len() ==> ids@[i].precedes(ids@[j]),
    {
        let mut ids: Vec<LocalId> = Vec::new();
        for words in iter: self.local_to_sub.keys()
            invariant
                iter.seq() == self.local_to_sub.keys().remaining(),
                ids@.len() == iter.index(),
                forall|i: int| 0 <= i < ids@.len() ==> ids@[i].words() == *iter.seq()[i],
        {
            ids.push(LocalId::from_words(*words));
        }
        proof {
            let keys = self.local_to_sub.keys().remaining().unref();
            assert forall|i: int| 0 <= i < ids@.len() implies ids@[i].words() == keys[i] by {}
            assert forall|i: int, j: int| 0 <= i < j < ids@.len() implies ids@[i].precedes(ids@[j]) by {
                let all = self.local_to_sub.keys().remaining();
                vstd::std_specs::btree::axiom_increasing_seq_meaning(all);
                assert((&all[i]).cmp_spec(&all[j]) is Less);
            }
            assert forall|i: int, j: int| 0 <= i < ids@.len() && 0 <= j < ids@.len() && i != j implies ids@[i]
                != ids@[j] by {
                assert(keys[i] != keys[j]);
            }
            assert forall|id: LocalId| ids@.to_set().contains(id) <==> self@.subs.dom().contains(id) by {
                if ids@.to_set().contains(id) {
                    let i = choose|i: int| 0 <= i < ids@.len() && ids@[i] == id;
                    assert(keys.to_set().contains(keys[i]));
                }
                if self@.subs.dom().contains(id) {
                    let i = choose|i: int| 0 <= i < keys.len() && keys[i] == id.words();
                    assert(ids@[i] == id);
                }
            }
        }
        ids
    }

    /// Insert a subscription that is not live yet.
    fn insert(&mut self, request: SubscriptionRequest, server_id: ServerId) -> (sub: RawSubscription)
        requires
            old(self)@.wf(),
            !old(self)@.subs.contains_key(request.local_id()),
        ensures
            final(self)@.wf(),
            old(self)@.upsert_to(request, server_id, final(self)@, sub@),
            sub.cursor() == position_after(final(self)@.subs[request.local_id()].published.len()),
    {
        let active = ActiveSubscription::new(request);
        let sub = active.subscribe();

        let local_id = active.local_id();
        bimap_insert(&mut self.local_to_server, local_id.to_words(), server_id.to_words());
        self.local_to_sub.insert(local_id.to_words(), active);
        proof {
            assert(final(self)@.subs =~= old(self)@.subs.insert(local_id, active@));
            assert(final(self)@.server_ids =~= rotated(old(self)@.server_ids, local_id, server_id));
        }
        sub
    }

    /// Insert or update the server identity of a subscription, and get a new
    /// handle on it.
    ///
    /// If a subscription with the very same parameters is live, it is given
    /// the new server identity and the handle reads from its channel. The
    /// cursor of the handle stands behind all that has been published to the
    /// subscription so far.
    pub fn upsert(&mut self, request: SubscriptionRequest, server_id: ServerId) -> (sub: RawSubscription)
        requires
            old(self)@.wf(),
        ensures
            final(self)@.wf(),
            old(self)@.upsert_to(request, server_id, final(self)@, sub@),
            sub.cursor() == position_after(final(self)@.subs[request.local_id()].published.len()),
    {
        let local_id = request.params_hash();

        if self.local_to_sub.contains_key(&local_id.to_words()) {
            self.change_server_id(local_id, server_id);
            let sub = self.get_subscription(local_id);
            assert(final(self)@.subs =~= old(self)@.subs.insert(local_id, old(self)@.subs[local_id]));
            sub.unwrap()
        } else {
            self.insert(request, server_id)
        }
    }

    /// De-alias a server identity, getting the local identity of its
    /// subscription.
    pub fn local_id_for(&self, server_id: ServerId) -> (local_id: Option<LocalId>)
        requires
            self@.wf(),
        ensures
            local_id == self@.local_id_for(server_id),
    {
        match bimap_get_by_right(&self.local_to_server, server_id.to_words()) {
            Some(words) => {
                let id = LocalId::from_words(words);
                assert(self@.server_ids.contains_pair(id, server_id));
                Some(id)
            },
            None => {
                assert forall|id: LocalId| !self@.server_ids.contains_pair(id, server_id) by {
                    assert(!pairs(self.local_to_server).contains_pair(id.words(), server_id.words()));
                }
                None
            },
        }
    }

    /// Drop all server identities. Every subscription stays live.
    pub fn drop_server_ids(&mut self)
        requires
            old(self)@.wf(),
        ensures
            final(self)@.wf(),
            final(self)@ == old(self)@.drop_server_ids(),
    {
        bimap_clear(&mut self.local_to_server);
        assert(final(self)@.server_ids =~= Map::empty());
    }

    /// Change the server identity of a live subscription.
    fn change_server_id(&mut self, local_id: LocalId, server_id: ServerId)
        requires
            old(self)@.wf(),
            old(self)@.subs.contains_key(local_id),
        ensures
            final(self)@.wf(),
            final(self)@.subs == old(self)@.subs,
            final(self)@.server_ids == rotated(old(self)@.server_ids, local_id, server_id),
    {
        bimap_insert(&mut self.local_to_server, local_id.to_words(), server_id.to_words());
        assert(final(self)@.server_ids =~= rotated(old(self)@.server_ids, local_id, server_id));
    }

    /// Remove a subscription by its local identity.
    pub fn remove_sub(&mut self, local_id: LocalId)
        requires
            old(self)@.wf(),
        ensures
            final(self)@.wf(),
            final(self)@ == old(self)@.remove_sub(local_id),
    {
        let _ = self.local_to_sub.remove(&local_id.to_words());
        bimap_remove_by_left(&mut self.local_to_server, local_id.to_words());
        proof {
            assert(final(self)@.subs =~= old(self)@.subs.remove(local_id));
            assert(final(self)@.server_ids =~= old(self)@.server_ids.remove(local_id));
        }
    }

    /// Notify the subscription channel of a new value, if the subscription is
    /// known, and if any handle exists. If the server identity is unknown, or
    /// no handle exists, the notification is dropped.
    pub fn notify(&mut self, notification: Notification)
        requires
            old(self)@.wf(),
        ensures
            final(self)@.wf(),
            old(self)@.notify_to(notification.subscription, notification.result@, final(self)@),
    {
        if let Some(local_id) = self.local_id_for(notification.subscription) {
            if let Some(mut sub) = self.local_to_sub.remove(&local_id.to_words()) {
                let ghost before = sub@;
                sub.notify(notification.result);
                self.local_to_sub.insert(local_id.to_words(), sub);
                proof {
                    if sub@ == before {
                        assert(final(self)@.subs =~= old(self)@.subs);
                    } else {
                        assert(final(self)@.subs =~= old(self)@.subs.insert(
                            local_id,
                            before.publish(notification.result@),
                        ));
                    }
                }
            }
        }
    }

    /// Get a new handle on a subscription. Its cursor stands behind all that
    /// has been published to the subscription so far.
    pub fn get_subscription(&self, local_id: LocalId) -> (sub: Option<RawSubscription>)
        ensures
            match sub {
                Some(sub) => self@.get_subscription(local_id) == Some(sub@) && sub.cursor()
                    == position_after(self@.subs[local_id].published.len()),
                None => self@.get_subscription(local_id) is None,
            },
    {
        match self.get(local_id) {
            Some(active) => Some(active.subscribe()),
            None => None,
        }
    }

    /// The record of a subscription, if it is live.
    pub fn get(&self, local_id: LocalId) -> (active: Option<&ActiveSubscription>)
        ensures
            match active {
                Some(active) => self@.subs.contains_key(local_id) && active@ == self@.subs[local_id],
                None => !self@.subs.contains_key(local_id),
            },
    {
        self.local_to_sub.get(&local_id.to_words())
    }
}

} // verus!
