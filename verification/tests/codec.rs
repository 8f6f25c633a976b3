use aurora_workspace_demo::account::AccountId;
use aurora_workspace_demo::args::NewOwnerArgs;
use aurora_workspace_demo::codec::Raw;

#[test]
fn serialize_appends_the_payload_unchanged() {
    let raw = Raw(vec![0xde, 0xad, 0xbe, 0xef]);
    let mut out = Vec::new();
    raw.serialize(&mut out);
    assert_eq!(out, vec![0xde, 0xad, 0xbe, 0xef]);
}

#[test]
fn serialize_keeps_what_the_writer_already_holds() {
    let raw = Raw(vec![3, 4]);
    let mut out = vec![1u8, 2];
    raw.serialize(&mut out);
    assert_eq!(out, vec![1, 2, 3, 4]);
}

#[test]
fn deserialize_takes_the_whole_buffer() {
    let r = Raw::deserialize(&[7u8, 8, 9]);
    assert_eq!(r, Raw(vec![7, 8, 9]));
}

#[test]
fn raw_payload_round_trips_unchanged() {
    // an owner-change payload: an account identifier as raw bytes
    let payload: Vec<u8> = b"newowner.test.near".to_vec();
    let raw = Raw(payload.clone());
    let mut encoded = Vec::new();
    raw.serialize(&mut encoded);
    assert_eq!(encoded, payload);
    let decoded = Raw::deserialize(&encoded);
    assert_eq!(decoded, raw);
}

#[test]
fn empty_payload_round_trips() {
    let raw = Raw(Vec::new());
    let mut encoded = Vec::new();
    raw.serialize(&mut encoded);
    assert!(encoded.is_empty());
    assert_eq!(Raw::deserialize(&encoded), raw);
}

#[test]
fn raw_clone_keeps_the_bytes() {
    let raw = Raw(vec![1, 2, 3]);
    assert_eq!(raw.clone(), raw);
}

#[test]
fn owner_change_payload_is_the_identifier_bytes() {
    let new_owner = AccountId::parse("newowner.test.near").unwrap();
    let args = NewOwnerArgs { new_owner };
    let raw = args.to_raw();
    assert_eq!(raw, Raw(b"newowner.test.near".to_vec()));
    // and the payload round-trips through the codec unchanged
    let mut encoded = Vec::new();
    raw.serialize(&mut encoded);
    assert_eq!(Raw::deserialize(&encoded), raw);
}

#[test]
fn new_owner_args_carry_the_proposed_owner() {
    let new_owner = AccountId::parse("newowner.test.near").unwrap();
    let args = NewOwnerArgs { new_owner };
    assert_eq!(args.new_owner.as_str(), "newowner.test.near");
    assert_eq!(args.clone().new_owner.as_str(), "newowner.test.near");
}
