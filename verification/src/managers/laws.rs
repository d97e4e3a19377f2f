//! What holds of the registry across several of its operations.
//!
//! Each law is stated over [`RegistryView`], in the terms in which the
//! operations of [`SubscriptionManager`](crate::managers::sub::SubscriptionManager)
//! state what they do.
use crate::id::{LocalId, ServerId};
use crate::managers::sub::{rotated, RegistryView};
use crate::request::SubscriptionRequest;
use crate::sub::HandleView;
use vstd::prelude::*;

verus! {

/// Giving a subscription a server identity keeps the server identities
/// apart: no two subscriptions have the same one afterwards, the
/// subscription has the new one, and nobody has the one it had before.
pub proof fn lemma_rotated_is_injective(server_ids: Map<LocalId, ServerId>, id: LocalId, server_id: ServerId)
    requires
        server_ids.is_injective(),
    ensures
        rotated(server_ids, id, server_id).is_injective(),
        rotated(server_ids, id, server_id).contains_pair(id, server_id),
        rotated(server_ids, id, server_id).dom().subset_of(server_ids.dom().insert(id)),
        forall|other: LocalId| #[trigger]
            rotated(server_ids, id, server_id).contains_key(other) && other != id ==> server_ids.contains_pair(
                other,
                rotated(server_ids, id, server_id)[other],
            ),
{
}

/// An upsert keeps the registry well formed.
pub proof fn lemma_upsert_keeps_wf(
    pre: RegistryView,
    request: SubscriptionRequest,
    server_id: ServerId,
    post: RegistryView,
    handle: HandleView,
)
    requires
        pre.wf(),
        pre.upsert_to(request, server_id, post, handle),
    ensures
        post.wf(),
{
    lemma_rotated_is_injective(pre.server_ids, request.local_id(), server_id);
}

/// A server identity resolves to the subscription that has it.
pub proof fn lemma_local_id_for_pair(registry: RegistryView, id: LocalId, server_id: ServerId)
    requires
        registry.server_ids.is_injective(),
        registry.server_ids.contains_pair(id, server_id),
    ensures
        registry.local_id_for(server_id) == Some(id),
{
}

/// Requests with the same parameters ask for the same subscription: after
/// two upserts with such requests both handles read from one channel, the
/// second server identity resolves to the subscription, and the first one,
/// if it is another, resolves to nothing.
pub proof fn lemma_upsert_dedup(
    pre: RegistryView,
    first: SubscriptionRequest,
    first_server_id: ServerId,
    mid: RegistryView,
    first_handle: HandleView,
    second: SubscriptionRequest,
    second_server_id: ServerId,
    post: RegistryView,
    second_handle: HandleView,
)
    requires
        pre.wf(),
        first.canonical_bytes() == second.canonical_bytes(),
        pre.upsert_to(first, first_server_id, mid, first_handle),
        mid.upsert_to(second, second_server_id, post, second_handle),
    ensures
        first_handle.id == second_handle.id,
        first_handle.channel == second_handle.channel,
        post.subs[first.local_id()] == mid.subs[first.local_id()],
        post.local_id_for(second_server_id) == Some(first.local_id()),
        first_server_id != second_server_id ==> post.local_id_for(first_server_id) is None,
{
    let id = first.local_id();
    lemma_upsert_keeps_wf(pre, first, first_server_id, mid, first_handle);
    lemma_upsert_keeps_wf(mid, second, second_server_id, post, second_handle);
    lemma_rotated_is_injective(pre.server_ids, id, first_server_id);
    lemma_rotated_is_injective(mid.server_ids, id, second_server_id);
    lemma_local_id_for_pair(post, id, second_server_id);
    if first_server_id != second_server_id {
        // Whoever had the first server identity after the second upsert had it
        // before; that was the subscription itself, which has the second one now.
        assert forall|other: LocalId| !post.server_ids.contains_pair(other, first_server_id) by {
            assert(mid.server_ids.contains_pair(id, first_server_id));
        }
    }
}

/// Losing the connection costs a subscription its server identity and
/// nothing else: the old server identity resolves to nothing, a new handle
/// can still be had and reads from the channel as it was, and an upsert with
/// the same parameters and the new server identity makes that one resolve to
/// the subscription, whose record and channel are the ones from before.
pub proof fn lemma_reconnect_continuity(
    pre: RegistryView,
    id: LocalId,
    old_server_id: ServerId,
    request: SubscriptionRequest,
    new_server_id: ServerId,
    post: RegistryView,
    handle: HandleView,
)
    requires
        pre.wf(),
        pre.subs.contains_key(id),
        pre.server_ids.contains_pair(id, old_server_id),
        request.local_id() == id,
        pre.drop_server_ids().upsert_to(request, new_server_id, post, handle),
    ensures
        pre.drop_server_ids().wf(),
        pre.drop_server_ids().local_id_for(old_server_id) is None,
        pre.drop_server_ids().subs == pre.subs,
        pre.drop_server_ids().get_subscription(id) == Some(pre.subs[id].handle()),
        post.wf(),
        post.subs == pre.subs,
        post.local_id_for(new_server_id) == Some(id),
        handle == pre.subs[id].handle(),
{
    lemma_upsert_keeps_wf(pre.drop_server_ids(), request, new_server_id, post, handle);
    lemma_local_id_for_pair(post, id, new_server_id);
}

/// A notification for a server identity that no subscription has changes
/// nothing: no channel takes it in.
pub proof fn lemma_dangling_frame(
    pre: RegistryView,
    server_id: ServerId,
    payload: Seq<char>,
    post: RegistryView,
)
    requires
        pre.local_id_for(server_id) is None,
        pre.notify_to(server_id, payload, post),
    ensures
        post == pre,
{
}

/// A notification reaches no channel but that of the subscription that has
/// its server identity, changes no server identity, and is published as it
/// came or not at all.
pub proof fn lemma_notify_reaches_one(
    pre: RegistryView,
    id: LocalId,
    server_id: ServerId,
    payload: Seq<char>,
    post: RegistryView,
)
    requires
        pre.wf(),
        pre.server_ids.contains_pair(id, server_id),
        pre.notify_to(server_id, payload, post),
    ensures
        post.wf(),
        post.server_ids == pre.server_ids,
        post.subs.dom() == pre.subs.dom(),
        forall|other: LocalId| other != id && pre.subs.contains_key(other) ==> post.subs[other] == pre.subs[other],
        post.subs[id] == pre.subs[id] || post.subs[id] == pre.subs[id].publish(payload),
{
    lemma_local_id_for_pair(pre, id, server_id);
}

/// A subscription that was removed is gone from both sides: no handle can
/// be had for it, and no server identity resolves to it. The other
/// subscriptions are as they were.
pub proof fn lemma_removed_is_gone(pre: RegistryView, id: LocalId)
    requires
        pre.wf(),
    ensures
        pre.remove_sub(id).wf(),
        pre.remove_sub(id).get_subscription(id) is None,
        forall|server_id: ServerId| pre.remove_sub(id).local_id_for(server_id) != Some(id),
        forall|other: LocalId|
            other != id ==> pre.remove_sub(id).get_subscription(other) == pre.get_subscription(other),
{
}

} // verus!
