use alloy_json_rpc::{Id, Request};
use alloy_pubsub::{
    LocalId, Notification, RawSubscription, ServerId, SubscriptionManager, SubscriptionRequest,
    TryRecvError,
};

const NEW_HEADS: LocalId =
    LocalId { hi: 0x77ee11bf27e54080a8ae7be2e6b2fa08, lo: 0xf48f6f45c9660376b0b7e2e3cc41677a };

const LOGS: LocalId =
    LocalId { hi: 0x0381d769b8e34547a58c232421e011b2, lo: 0x4bf85d8217556702477abd56fbac51e6 };

fn request(id: u64, topic: &str) -> SubscriptionRequest {
    let request = Request::new("eth_subscribe", Id::Number(id), [topic.to_string()]);
    SubscriptionRequest::new(request.serialize().unwrap())
}

fn server(id: u128) -> ServerId {
    ServerId { hi: 0, lo: id }
}

fn frame(subscription: u128, result: &str) -> Notification {
    Notification { subscription: server(subscription), result: result.to_string() }
}

fn drain(sub: &mut RawSubscription) -> Vec<String> {
    let mut seen = Vec::new();
    while let Ok(value) = sub.try_recv() {
        seen.push(value);
    }
    seen
}

#[test]
fn new_registry_is_empty() {
    let manager = SubscriptionManager::new();
    assert_eq!(manager.len(), 0);
    assert!(manager.local_ids().is_empty());
    assert_eq!(manager.local_id_for(server(1)), None);
    assert!(manager.get_subscription(NEW_HEADS).is_none());
    assert!(manager.get(NEW_HEADS).is_none());
    assert_eq!(SubscriptionManager::default().len(), 0);
}

#[test]
fn upsert_creates_a_subscription() {
    let mut manager = SubscriptionManager::new();
    let sub = manager.upsert(request(1, "newHeads"), server(5));
    assert_eq!(sub.local_id(), NEW_HEADS);
    assert_eq!(manager.len(), 1);
    assert_eq!(manager.local_ids(), vec![NEW_HEADS]);
    assert_eq!(manager.local_id_for(server(5)), Some(NEW_HEADS));
    assert_eq!(manager.local_id_for(server(6)), None);
    let record = manager.get(NEW_HEADS).unwrap();
    assert_eq!(record.local_id(), NEW_HEADS);
    assert_eq!(record.request().params_hash(), NEW_HEADS);
    assert_eq!(record.request().request().method(), "eth_subscribe");
}

#[test]
fn upsert_with_the_same_params_converges_on_one_channel() {
    let mut manager = SubscriptionManager::new();
    let first = manager.upsert(request(1, "newHeads"), server(5));
    let second = manager.upsert(request(2, "newHeads"), server(9));
    assert!(first.same_channel(&second));
    assert_eq!(first.local_id(), second.local_id());
    assert_eq!(manager.len(), 1);
    assert_eq!(manager.local_id_for(server(9)), Some(NEW_HEADS));
    assert_eq!(manager.local_id_for(server(5)), None);
    // The record that was there stays, with the request it was made from.
    assert_eq!(manager.get(NEW_HEADS).unwrap().request().request().id(), &Id::Number(1));
}

#[test]
fn upsert_with_other_params_opens_another_channel() {
    let mut manager = SubscriptionManager::new();
    let heads = manager.upsert(request(1, "newHeads"), server(5));
    let logs = manager.upsert(request(2, "logs"), server(6));
    assert!(!heads.same_channel(&logs));
    assert_eq!(logs.local_id(), LOGS);
    assert_eq!(manager.len(), 2);
    assert_eq!(manager.local_ids(), vec![LOGS, NEW_HEADS]);
    assert_eq!(manager.local_id_for(server(5)), Some(NEW_HEADS));
    assert_eq!(manager.local_id_for(server(6)), Some(LOGS));
}

#[test]
fn a_server_id_belongs_to_one_subscription_only() {
    let mut manager = SubscriptionManager::new();
    let _heads = manager.upsert(request(1, "newHeads"), server(5));
    let mut logs = manager.upsert(request(2, "logs"), server(5));
    // `logs` took the server identity over; `newHeads` has none now.
    assert_eq!(manager.local_id_for(server(5)), Some(LOGS));
    assert_eq!(manager.len(), 2);
    let mut heads = manager.get_subscription(NEW_HEADS).unwrap();
    manager.notify(frame(5, "1"));
    assert_eq!(logs.try_recv(), Ok("1".to_string()));
    assert_eq!(heads.try_recv(), Err(TryRecvError::Empty));
}

#[test]
fn upsert_of_the_same_pair_changes_nothing() {
    let mut manager = SubscriptionManager::new();
    let first = manager.upsert(request(1, "newHeads"), server(5));
    let second = manager.upsert(request(1, "newHeads"), server(5));
    assert!(first.same_channel(&second));
    assert_eq!(manager.len(), 1);
    assert_eq!(manager.local_id_for(server(5)), Some(NEW_HEADS));
}

#[test]
fn reconnect_keeps_the_subscription() {
    let mut manager = SubscriptionManager::new();
    let mut before = manager.upsert(request(1, "newHeads"), server(5));
    manager.notify(frame(5, "\"buffered\""));

    manager.drop_server_ids();
    assert_eq!(manager.local_id_for(server(5)), None);
    assert_eq!(manager.len(), 1);
    let during = manager.get_subscription(NEW_HEADS).unwrap();
    assert!(during.same_channel(&before));
    // A frame that still carries the old server identity goes nowhere.
    manager.notify(frame(5, "\"stale\""));

    let mut after = manager.upsert(request(7, "newHeads"), server(6));
    assert!(after.same_channel(&before));
    assert_eq!(manager.local_id_for(server(6)), Some(NEW_HEADS));
    assert_eq!(manager.local_id_for(server(5)), None);
    manager.notify(frame(6, "\"fresh\""));

    assert_eq!(drain(&mut before), vec!["\"buffered\"".to_string(), "\"fresh\"".to_string()]);
    assert_eq!(drain(&mut after), vec!["\"fresh\"".to_string()]);
}

#[test]
fn drop_server_ids_clears_every_server_id() {
    let mut manager = SubscriptionManager::new();
    let _heads = manager.upsert(request(1, "newHeads"), server(5));
    let _logs = manager.upsert(request(2, "logs"), server(6));
    manager.drop_server_ids();
    assert_eq!(manager.local_id_for(server(5)), None);
    assert_eq!(manager.local_id_for(server(6)), None);
    assert_eq!(manager.local_ids(), vec![LOGS, NEW_HEADS]);
}

#[test]
fn notify_for_an_unknown_server_id_is_dropped() {
    let mut manager = SubscriptionManager::new();
    let mut sub = manager.upsert(request(1, "newHeads"), server(5));
    manager.notify(frame(6, "\"lost\""));
    assert_eq!(sub.try_recv(), Err(TryRecvError::Empty));
    assert!(sub.is_empty());
    assert_eq!(manager.len(), 1);
    assert_eq!(manager.local_id_for(server(5)), Some(NEW_HEADS));
    assert_eq!(manager.local_id_for(server(6)), None);
}

#[test]
fn notify_on_an_empty_registry_does_nothing() {
    let mut manager = SubscriptionManager::new();
    manager.notify(frame(5, "1"));
    assert_eq!(manager.len(), 0);
}

#[test]
fn notify_reaches_every_handle_of_the_subscription() {
    let mut manager = SubscriptionManager::new();
    let mut first = manager.upsert(request(1, "newHeads"), server(5));
    let mut second = manager.get_subscription(NEW_HEADS).unwrap();
    let mut other = manager.upsert(request(2, "logs"), server(6));
    manager.notify(frame(5, "{\"number\":\"0x1\"}"));
    assert_eq!(first.try_recv(), Ok("{\"number\":\"0x1\"}".to_string()));
    assert_eq!(second.try_recv(), Ok("{\"number\":\"0x1\"}".to_string()));
    assert_eq!(other.try_recv(), Err(TryRecvError::Empty));
    assert_eq!(manager.len(), 2);
}

#[test]
fn notify_without_handles_discards_the_value() {
    let mut manager = SubscriptionManager::new();
    let sub = manager.upsert(request(1, "newHeads"), server(5));
    drop(sub);
    manager.notify(frame(5, "1"));
    let mut late = manager.get_subscription(NEW_HEADS).unwrap();
    assert_eq!(late.try_recv(), Err(TryRecvError::Empty));
    manager.notify(frame(5, "2"));
    assert_eq!(late.try_recv(), Ok("2".to_string()));
}

#[test]
fn remove_sub_removes_both_mappings() {
    let mut manager = SubscriptionManager::new();
    let mut sub = manager.upsert(request(1, "newHeads"), server(5));
    let _logs = manager.upsert(request(2, "logs"), server(6));
    manager.notify(frame(5, "1"));

    manager.remove_sub(NEW_HEADS);
    assert!(manager.get_subscription(NEW_HEADS).is_none());
    assert!(manager.get(NEW_HEADS).is_none());
    assert_eq!(manager.local_id_for(server(5)), None);
    assert_eq!(manager.local_id_for(server(6)), Some(LOGS));
    assert_eq!(manager.local_ids(), vec![LOGS]);
    // What was published before the removal can still be read; then the
    // handle learns that the channel is closed.
    assert_eq!(sub.try_recv(), Ok("1".to_string()));
    assert_eq!(sub.try_recv(), Err(TryRecvError::Closed));
    assert_eq!(sub.try_recv(), Err(TryRecvError::Closed));
}

#[test]
fn remove_sub_of_an_unknown_id_changes_nothing() {
    let mut manager = SubscriptionManager::new();
    let _sub = manager.upsert(request(1, "newHeads"), server(5));
    manager.remove_sub(LOGS);
    assert_eq!(manager.len(), 1);
    assert_eq!(manager.local_id_for(server(5)), Some(NEW_HEADS));
}

#[test]
fn a_removed_subscription_can_be_made_anew() {
    let mut manager = SubscriptionManager::new();
    let old = manager.upsert(request(1, "newHeads"), server(5));
    manager.remove_sub(NEW_HEADS);
    let new = manager.upsert(request(1, "newHeads"), server(5));
    assert!(!old.same_channel(&new));
    assert_eq!(manager.local_id_for(server(5)), Some(NEW_HEADS));
}

#[test]
fn new_heads_end_to_end() {
    let mut manager = SubscriptionManager::new();
    let request = request(1, "newHeads");
    assert_eq!(request.params_hash(), NEW_HEADS);
    let mut first = manager.upsert(request, server(5));
    assert_eq!(first.local_id(), NEW_HEADS);

    manager.notify(frame(5, "{\"number\":\"0x1b4\"}"));
    let mut second = manager.get_subscription(NEW_HEADS).unwrap();
    manager.notify(frame(5, "{\"number\":\"0x1b5\"}"));

    assert_eq!(first.try_recv(), Ok("{\"number\":\"0x1b4\"}".to_string()));
    assert_eq!(first.try_recv(), Ok("{\"number\":\"0x1b5\"}".to_string()));
    assert_eq!(first.try_recv(), Err(TryRecvError::Empty));
    assert_eq!(second.try_recv(), Ok("{\"number\":\"0x1b5\"}".to_string()));
    assert_eq!(second.try_recv(), Err(TryRecvError::Empty));
}

#[test]
fn server_ids_use_all_256_bits() {
    let mut manager = SubscriptionManager::new();
    let high = ServerId { hi: 1, lo: 0 };
    let low = ServerId { hi: 0, lo: 1 };
    let _heads = manager.upsert(request(1, "newHeads"), high);
    let _logs = manager.upsert(request(2, "logs"), low);
    assert_eq!(manager.local_id_for(high), Some(NEW_HEADS));
    assert_eq!(manager.local_id_for(low), Some(LOGS));
    assert_eq!(manager.local_id_for(ServerId { hi: 1, lo: 1 }), None);
}
