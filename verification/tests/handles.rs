use alloy_json_rpc::{Id, Request};
use alloy_pubsub::managers::active_sub::CHANNEL_CAPACITY;
use alloy_pubsub::{
    ActiveSubscription, LocalId, RawSubscription, RecvError, Subscription, SubscriptionItem,
    SubscriptionRequest, TryRecvError,
};

const NEW_HEADS: LocalId =
    LocalId { hi: 0x77ee11bf27e54080a8ae7be2e6b2fa08, lo: 0xf48f6f45c9660376b0b7e2e3cc41677a };

fn record(topic: &str) -> ActiveSubscription {
    let request = Request::new("eth_subscribe", Id::Number(1), [topic.to_string()]);
    ActiveSubscription::new(SubscriptionRequest::new(request.serialize().unwrap()))
}

fn strict_try_recv(sub: &mut Subscription<u64>) -> Result<u64, TryRecvError> {
    loop {
        let read = sub.inner_mut().try_recv().map(|value| {
            let decoded = serde_json::from_str::<u64>(&value);
            SubscriptionItem::from_decoded(value, decoded)
        });
        if let Some(outcome) = Subscription::strict_step(read) {
            return outcome;
        }
    }
}

#[test]
fn a_record_hashes_its_request() {
    let record = record("newHeads");
    assert_eq!(record.local_id(), NEW_HEADS);
    assert_eq!(record.request().params_hash(), NEW_HEADS);
    assert_eq!(record.subscribe().local_id(), NEW_HEADS);
}

#[test]
fn a_new_channel_is_empty() {
    let record = record("newHeads");
    let mut sub = record.subscribe();
    assert!(sub.is_empty());
    assert_eq!(sub.len(), 0);
    assert_eq!(sub.try_recv(), Err(TryRecvError::Empty));
}

#[test]
fn a_record_publishes_to_all_its_handles() {
    let mut record = record("newHeads");
    let mut first = record.subscribe();
    let mut second = record.subscribe();
    record.notify("1".to_string());
    record.notify("2".to_string());
    assert_eq!(first.len(), 2);
    assert!(!first.is_empty());
    assert_eq!(first.try_recv(), Ok("1".to_string()));
    assert_eq!(first.len(), 1);
    assert_eq!(first.try_recv(), Ok("2".to_string()));
    assert_eq!(first.try_recv(), Err(TryRecvError::Empty));
    assert_eq!(second.try_recv(), Ok("1".to_string()));
    assert_eq!(second.try_recv(), Ok("2".to_string()));
    assert_eq!(second.try_recv(), Err(TryRecvError::Empty));
}

#[test]
fn a_record_without_handles_discards() {
    let mut record = record("newHeads");
    record.notify("1".to_string());
    let mut sub = record.subscribe();
    assert_eq!(sub.try_recv(), Err(TryRecvError::Empty));
}

#[test]
fn handles_of_one_record_share_a_channel() {
    let heads = record("newHeads");
    let logs = record("logs");
    let first = heads.subscribe();
    let second = heads.subscribe();
    let other = logs.subscribe();
    assert!(first.same_channel(&second));
    assert!(first.same_channel(&first));
    assert!(!first.same_channel(&other));
    assert!(!other.same_channel(&second));
}

#[test]
fn resubscribe_does_not_replay() {
    let mut record = record("newHeads");
    let mut old = record.subscribe();
    record.notify("\"before\"".to_string());
    let mut young = old.resubscribe();
    assert!(young.same_channel(&old));
    assert_eq!(young.local_id(), old.local_id());
    assert_eq!(young.try_recv(), Err(TryRecvError::Empty));
    record.notify("\"after\"".to_string());
    assert_eq!(young.try_recv(), Ok("\"after\"".to_string()));
    assert_eq!(young.try_recv(), Err(TryRecvError::Empty));
    assert_eq!(old.try_recv(), Ok("\"before\"".to_string()));
    assert_eq!(old.try_recv(), Ok("\"after\"".to_string()));
}

#[test]
fn resubscribe_starts_after_the_backlog_of_its_origin() {
    let mut record = record("newHeads");
    let mut old = record.subscribe();
    record.notify("1".to_string());
    record.notify("2".to_string());
    assert_eq!(old.try_recv(), Ok("1".to_string()));
    let mut young = old.resubscribe();
    assert_eq!(young.len(), 0);
    assert_eq!(old.len(), 1);
    assert_eq!(young.try_recv(), Err(TryRecvError::Empty));
    assert_eq!(old.try_recv(), Ok("2".to_string()));
}

#[test]
fn a_full_buffer_does_not_lag() {
    let mut record = record("newHeads");
    let mut sub = record.subscribe();
    for n in 0..CHANNEL_CAPACITY {
        record.notify(format!("{n}"));
    }
    assert_eq!(sub.len(), CHANNEL_CAPACITY);
    for n in 0..CHANNEL_CAPACITY {
        assert_eq!(sub.try_recv(), Ok(format!("{n}")));
    }
    assert_eq!(sub.try_recv(), Err(TryRecvError::Empty));
}

#[test]
fn a_slow_handle_is_told_how_far_it_lagged() {
    assert_eq!(CHANNEL_CAPACITY, 16);
    let mut record = record("newHeads");
    let mut slow = record.subscribe();
    let mut quick = record.subscribe();
    for n in 0..19 {
        record.notify(format!("{n}"));
        assert_eq!(quick.try_recv(), Ok(format!("{n}")));
    }
    assert_eq!(slow.try_recv(), Err(TryRecvError::Lagged(3)));
    // The read after that yields the oldest value that is still retained.
    for n in 3..19 {
        assert_eq!(slow.try_recv(), Ok(format!("{n}")));
    }
    assert_eq!(slow.try_recv(), Err(TryRecvError::Empty));
}

#[test]
fn lag_by_one() {
    let mut record = record("newHeads");
    let mut sub = record.subscribe();
    for n in 0..17 {
        record.notify(format!("{n}"));
    }
    assert_eq!(sub.try_recv(), Err(TryRecvError::Lagged(1)));
    assert_eq!(sub.try_recv(), Ok("1".to_string()));
}

#[test]
fn dropping_the_record_closes_the_channel() {
    let mut record = record("newHeads");
    let mut sub = record.subscribe();
    record.notify("1".to_string());
    drop(record);
    assert_eq!(sub.try_recv(), Ok("1".to_string()));
    assert_eq!(sub.try_recv(), Err(TryRecvError::Closed));
}

#[test]
fn the_read_end_can_wait() {
    let mut record = record("newHeads");
    let mut sub = record.subscribe();
    record.notify("1".to_string());
    assert_eq!(sub.receiver_mut().blocking_recv(), Ok("1".to_string()));
    assert_eq!(sub.local_id(), NEW_HEADS);
    drop(record);
    assert_eq!(
        sub.receiver_mut().blocking_recv(),
        Err(tokio::sync::broadcast::error::RecvError::Closed)
    );
}

#[test]
fn a_typed_subscription_wraps_a_raw_one() {
    let mut record = record("newHeads");
    let raw = record.subscribe();
    let twin = record.subscribe();
    let mut typed: Subscription<u64> = Subscription::from(raw);
    assert_eq!(typed.local_id(), NEW_HEADS);
    assert!(typed.inner().same_channel(&twin));
    assert!(typed.is_empty());
    assert_eq!(typed.len(), 0);

    record.notify("7".to_string());
    assert_eq!(typed.len(), 1);
    assert!(!typed.is_empty());
    assert_eq!(typed.inner_mut().try_recv(), Ok("7".to_string()));
    assert!(typed.is_empty());

    let raw: RawSubscription = typed.into_raw();
    assert_eq!(raw.local_id(), NEW_HEADS);
    assert!(raw.same_channel(&twin));
}

#[test]
fn typed_subscriptions_of_other_types_share_a_channel() {
    let heads = record("newHeads");
    let logs = record("logs");
    let numbers: Subscription<u64> = heads.subscribe().into();
    let texts: Subscription<String> = heads.subscribe().into();
    let others: Subscription<u64> = logs.subscribe().into();
    assert!(numbers.same_channel(&texts));
    assert!(!numbers.same_channel(&others));
}

#[test]
fn a_typed_subscription_resubscribes() {
    let mut record = record("newHeads");
    let typed: Subscription<u64> = record.subscribe().into();
    record.notify("1".to_string());
    let mut fresh = typed.resubscribe();
    let mut fresh_raw = typed.resubscribe_inner();
    assert!(fresh.same_channel(&typed));
    assert!(fresh_raw.same_channel(typed.inner()));
    assert_eq!(fresh.local_id(), NEW_HEADS);
    assert_eq!(fresh_raw.local_id(), NEW_HEADS);
    assert_eq!(fresh.inner_mut().try_recv(), Err(TryRecvError::Empty));
    assert_eq!(fresh_raw.try_recv(), Err(TryRecvError::Empty));
    assert_eq!(typed.len(), 1);
}

#[test]
fn a_payload_that_decodes_is_an_item() {
    let value = "42".to_string();
    let decoded = serde_json::from_str::<u64>(&value);
    assert!(matches!(SubscriptionItem::from_decoded(value, decoded), SubscriptionItem::Item(42)));
}

#[test]
fn a_payload_that_does_not_decode_is_kept() {
    let value = "\"forty-two\"".to_string();
    let decoded = serde_json::from_str::<u64>(&value);
    match SubscriptionItem::from_decoded(value, decoded) {
        SubscriptionItem::Other(raw) => assert_eq!(raw, "\"forty-two\""),
        SubscriptionItem::Item(item) => panic!("decoded as {item}"),
    }
}

#[test]
fn a_strict_step_ends_on_an_item() {
    let read: Result<SubscriptionItem<u64>, TryRecvError> = Ok(SubscriptionItem::Item(3));
    assert_eq!(Subscription::strict_step(read), Some(Ok(3)));
}

#[test]
fn a_strict_step_skips_another_payload() {
    let read: Result<SubscriptionItem<u64>, TryRecvError> =
        Ok(SubscriptionItem::Other("{}".to_string()));
    assert_eq!(Subscription::strict_step(read), None);
}

#[test]
fn a_strict_step_ends_on_an_error() {
    let closed: Result<SubscriptionItem<u64>, TryRecvError> = Err(TryRecvError::Closed);
    assert_eq!(Subscription::strict_step(closed), Some(Err(TryRecvError::Closed)));
    let lagged: Result<SubscriptionItem<u64>, TryRecvError> = Err(TryRecvError::Lagged(2));
    assert_eq!(Subscription::strict_step(lagged), Some(Err(TryRecvError::Lagged(2))));
    let empty: Result<SubscriptionItem<u64>, TryRecvError> = Err(TryRecvError::Empty);
    assert_eq!(Subscription::strict_step(empty), Some(Err(TryRecvError::Empty)));
}

#[test]
fn strict_consumption_discards_what_does_not_decode() {
    let mut record = record("newHeads");
    let mut typed: Subscription<u64> = record.subscribe().into();
    record.notify("\"a\"".to_string());
    record.notify("{}".to_string());
    record.notify("5".to_string());
    record.notify("null".to_string());
    record.notify("6".to_string());
    assert_eq!(strict_try_recv(&mut typed), Ok(5));
    assert_eq!(strict_try_recv(&mut typed), Ok(6));
    assert_eq!(strict_try_recv(&mut typed), Err(TryRecvError::Empty));
}

#[test]
fn strict_consumption_surfaces_a_lag() {
    let mut record = record("newHeads");
    let mut typed: Subscription<u64> = record.subscribe().into();
    for _ in 0..18 {
        record.notify("\"skip\"".to_string());
    }
    record.notify("9".to_string());
    assert_eq!(strict_try_recv(&mut typed), Err(TryRecvError::Lagged(3)));
    assert_eq!(strict_try_recv(&mut typed), Ok(9));
    drop(record);
    assert_eq!(strict_try_recv(&mut typed), Err(TryRecvError::Closed));
}

#[test]
fn a_strict_step_ends_on_the_error_of_a_waiting_read() {
    let closed: Result<SubscriptionItem<String>, RecvError> = Err(RecvError::Closed);
    assert_eq!(Subscription::strict_step(closed), Some(Err(RecvError::Closed)));
    let lagged: Result<SubscriptionItem<String>, RecvError> = Err(RecvError::Lagged(7));
    assert_eq!(Subscription::strict_step(lagged), Some(Err(RecvError::Lagged(7))));
    let other: Result<SubscriptionItem<String>, RecvError> =
        Ok(SubscriptionItem::Other("1".to_string()));
    assert_eq!(Subscription::strict_step(other), None);
}

#[test]
fn a_channel_without_handles_is_not_notified() {
    assert!(!ActiveSubscription::is_heard(0));
    assert!(ActiveSubscription::is_heard(1));
    assert!(ActiveSubscription::is_heard(usize::MAX));
}

#[test]
fn a_notification_for_no_handles_is_dropped() {
    let mut record = record("newHeads");
    let mut sub = record.subscribe();
    record.notify_heard(0, "1".to_string());
    assert_eq!(sub.try_recv(), Err(TryRecvError::Empty));
    assert_eq!(sub.len(), 0);
}

#[test]
fn a_notification_for_some_handles_is_published() {
    let mut record = record("newHeads");
    let mut sub = record.subscribe();
    record.notify_heard(1, "1".to_string());
    record.notify_heard(7, "2".to_string());
    assert_eq!(sub.try_recv(), Ok("1".to_string()));
    assert_eq!(sub.try_recv(), Ok("2".to_string()));
    assert_eq!(sub.try_recv(), Err(TryRecvError::Empty));
}

#[test]
fn a_notification_for_handles_that_have_gone_is_dropped() {
    let mut record = record("newHeads");
    record.notify_heard(3, "1".to_string());
    let mut sub = record.subscribe();
    assert_eq!(sub.try_recv(), Err(TryRecvError::Empty));
}
