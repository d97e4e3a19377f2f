use alloy_json_rpc::{Id, Request};
use alloy_pubsub::{LocalId, ServerId, SubscriptionRequest};

fn bytes_of(hi: u128, lo: u128) -> [u8; 32] {
    let mut bytes = [0u8; 32];
    bytes[..16].copy_from_slice(&hi.to_be_bytes());
    bytes[16..].copy_from_slice(&lo.to_be_bytes());
    bytes
}

#[test]
fn the_hash_of_no_bytes() {
    // c5d2460186f7233c927e7db2dcc703c0e500b653ca82273b7bfad8045d85a470
    assert_eq!(
        LocalId::of_params(b""),
        LocalId { hi: 0xc5d2460186f7233c927e7db2dcc703c0, lo: 0xe500b653ca82273b7bfad8045d85a470 }
    );
}

#[test]
fn the_hash_of_abc() {
    // 4e03657aea45a94fc7d47ba826c8d667c0d1e6e33a64a036ec44f58fa12d6c45
    assert_eq!(
        LocalId::of_params(b"abc"),
        LocalId { hi: 0x4e03657aea45a94fc7d47ba826c8d667, lo: 0xc0d1e6e33a64a036ec44f58fa12d6c45 }
    );
}

#[test]
fn the_hash_of_new_heads_params() {
    assert_eq!(
        LocalId::of_params(b"[\"newHeads\"]"),
        LocalId { hi: 0x77ee11bf27e54080a8ae7be2e6b2fa08, lo: 0xf48f6f45c9660376b0b7e2e3cc41677a }
    );
}

#[test]
fn a_local_id_reads_its_bytes_high_byte_first() {
    let mut bytes = [0u8; 32];
    bytes[0] = 0x01;
    bytes[15] = 0x02;
    bytes[16] = 0x03;
    bytes[31] = 0x04;
    assert_eq!(
        LocalId::from_bytes(&bytes),
        LocalId { hi: 0x01000000_00000000_00000000_00000002, lo: 0x03000000_00000000_00000000_00000004 }
    );
    assert_eq!(LocalId::from_bytes(&[0u8; 32]), LocalId { hi: 0, lo: 0 });
    assert_eq!(LocalId::from_bytes(&[0xff; 32]), LocalId { hi: u128::MAX, lo: u128::MAX });
    let counting: [u8; 32] = core::array::from_fn(|n| n as u8);
    assert_eq!(
        LocalId::from_bytes(&counting),
        LocalId { hi: 0x000102030405060708090a0b0c0d0e0f, lo: 0x101112131415161718191a1b1c1d1e1f }
    );
}

#[test]
fn a_server_id_reads_its_bytes_high_byte_first() {
    let mut bytes = [0u8; 32];
    bytes[31] = 5;
    assert_eq!(ServerId::from_bytes(&bytes), ServerId { hi: 0, lo: 5 });
    bytes[15] = 1;
    assert_eq!(ServerId::from_bytes(&bytes), ServerId { hi: 1, lo: 5 });
    assert_eq!(
        ServerId::from_bytes(&bytes_of(0xdead_beef, u128::MAX)),
        ServerId { hi: 0xdead_beef, lo: u128::MAX }
    );
}

#[test]
fn words_round_trip() {
    let local = LocalId { hi: 7, lo: 9 };
    assert_eq!(local.to_words(), (7, 9));
    assert_eq!(LocalId::from_words((7, 9)), local);
    let server = ServerId { hi: 1, lo: 2 };
    assert_eq!(server.to_words(), (1, 2));
    assert_eq!(ServerId::from_words((1, 2)), server);
}

#[test]
fn a_request_is_identified_by_its_params() {
    let heads = Request::new("eth_subscribe", Id::Number(1), ["newHeads".to_string()]);
    let serialized = heads.serialize().unwrap();
    let expected = serialized.params_hash();
    let request = SubscriptionRequest::new(serialized);
    assert_eq!(request.params_hash(), LocalId::from_bytes(&expected.0));
    assert_eq!(request.params_hash(), LocalId::of_params(b"[\"newHeads\"]"));
    assert_eq!(request.request().method(), "eth_subscribe");
    assert_eq!(request.into_request().id(), &Id::Number(1));
}

#[test]
fn the_request_id_and_method_do_not_count() {
    let first = Request::new("eth_subscribe", Id::Number(1), ["logs".to_string()]);
    let second = Request::new("other_subscribe", Id::String("x".to_string()), ["logs".to_string()]);
    let first = SubscriptionRequest::new(first.serialize().unwrap());
    let second = SubscriptionRequest::new(second.serialize().unwrap());
    assert_eq!(first.params_hash(), second.params_hash());
    assert_eq!(
        first.params_hash(),
        LocalId { hi: 0x0381d769b8e34547a58c232421e011b2, lo: 0x4bf85d8217556702477abd56fbac51e6 }
    );
}

#[test]
fn a_request_without_params_hashes_no_bytes() {
    let bare = Request::new("eth_subscribe", Id::Number(1), ());
    let serialized = bare.serialize().unwrap();
    let expected = serialized.params_hash();
    let request = SubscriptionRequest::new(serialized);
    assert_eq!(request.params_hash(), LocalId::of_params(b""));
    assert_eq!(request.params_hash(), LocalId::from_bytes(&expected.0));
}

#[test]
fn other_params_give_another_identity() {
    let heads = Request::new("eth_subscribe", Id::Number(1), ["newHeads".to_string()]);
    let logs = Request::new("eth_subscribe", Id::Number(1), ["logs".to_string()]);
    let heads = SubscriptionRequest::new(heads.serialize().unwrap());
    let logs = SubscriptionRequest::new(logs.serialize().unwrap());
    assert_ne!(heads.params_hash(), logs.params_hash());
}

#[test]
fn a_local_id_writes_its_bytes_high_byte_first() {
    let id = LocalId { hi: 0x000102030405060708090a0b0c0d0e0f, lo: 0x101112131415161718191a1b1c1d1e1f };
    let counting: [u8; 32] = core::array::from_fn(|n| n as u8);
    assert_eq!(id.to_bytes(), counting);
    assert_eq!(LocalId { hi: 0, lo: 0 }.to_bytes(), [0u8; 32]);
    assert_eq!(LocalId { hi: u128::MAX, lo: u128::MAX }.to_bytes(), [0xff; 32]);
    assert_eq!(LocalId { hi: 1, lo: 2 }.to_bytes(), bytes_of(1, 2));
}

#[test]
fn a_server_id_writes_its_bytes_high_byte_first() {
    let mut five = [0u8; 32];
    five[31] = 5;
    assert_eq!(ServerId { hi: 0, lo: 5 }.to_bytes(), five);
    assert_eq!(ServerId { hi: 0xdead_beef, lo: u128::MAX }.to_bytes(), bytes_of(0xdead_beef, u128::MAX));
}

#[test]
fn bytes_round_trip() {
    let digest = alloy_primitives::keccak256(b"[\"newHeads\"]");
    assert_eq!(LocalId::from_bytes(&digest.0).to_bytes(), digest.0);
    let id = LocalId { hi: 0x77ee11bf27e54080a8ae7be2e6b2fa08, lo: 0xf48f6f45c9660376b0b7e2e3cc41677a };
    assert_eq!(LocalId::from_bytes(&id.to_bytes()), id);
    let server = ServerId { hi: 3, lo: 4 };
    assert_eq!(ServerId::from_bytes(&server.to_bytes()), server);
    let number = alloy_primitives::U256::from(5u64);
    assert_eq!(ServerId::from_bytes(&number.to_be_bytes::<32>()), ServerId { hi: 0, lo: 5 });
}
