use token_indexer::codec::{encode_event, encode_record};
use token_indexer::events::{decode_event, decode_record, EventData, EventKind, EventStandard, StandardEvent};
use token_indexer::json::Json;
use token_indexer::records::NearWalletTokensDB;

fn data(owner: &str, old: &str, new: &str, amount: &str, ids: &[&str], memo: Option<&str>, auth: Option<&str>) -> EventData {
    EventData {
        owner_id: owner.to_string(),
        old_owner_id: old.to_string(),
        new_owner_id: new.to_string(),
        amount: amount.to_string(),
        token_ids: ids.iter().map(|t| t.to_string()).collect(),
        memo: memo.map(|m| m.to_string()),
        authorized_id: auth.map(|a| a.to_string()),
    }
}

fn same_data(a: &EventData, b: &EventData) -> bool {
    a.owner_id == b.owner_id
        && a.old_owner_id == b.old_owner_id
        && a.new_owner_id == b.new_owner_id
        && a.amount == b.amount
        && a.token_ids == b.token_ids
        && a.memo == b.memo
        && a.authorized_id == b.authorized_id
}

fn round_trip(e: StandardEvent) {
    let j = encode_event(&e);
    let back = decode_event(&j).expect("the encoding decodes");
    assert_eq!(back.standard, e.standard);
    assert_eq!(back.kind, e.kind);
    assert_eq!(back.version, e.version);
    assert_eq!(back.data.len(), e.data.len());
    for (x, y) in back.data.iter().zip(e.data.iter()) {
        assert!(same_data(x, y));
    }
}

#[test]
fn nft_events_round_trip() {
    round_trip(StandardEvent {
        standard: EventStandard::Nep171,
        version: "1.0.0".to_string(),
        kind: EventKind::Mint,
        data: vec![data("w1", "", "", "", &["t1", "t2"], Some("m"), None)],
    });
    round_trip(StandardEvent {
        standard: EventStandard::Nep171,
        version: "1.0.0".to_string(),
        kind: EventKind::Transfer,
        data: vec![
            data("", "a", "b", "", &["t"], None, Some("x")),
            data("", "b", "c", "", &[], Some("n"), None),
        ],
    });
    round_trip(StandardEvent {
        standard: EventStandard::Nep171,
        version: "2".to_string(),
        kind: EventKind::Burn,
        data: vec![],
    });
}

#[test]
fn ft_events_round_trip() {
    round_trip(StandardEvent {
        standard: EventStandard::Nep141,
        version: "1.0.0".to_string(),
        kind: EventKind::Transfer,
        data: vec![data("", "a", "b", "100", &[], Some("voucher"), None)],
    });
    round_trip(StandardEvent {
        standard: EventStandard::Nep141,
        version: "1.0.0".to_string(),
        kind: EventKind::Mint,
        data: vec![data("a", "", "", "5", &[], None, None)],
    });
}

#[test]
fn record_shape_decides_required_fields() {
    let d = data("", "a", "b", "3", &[], None, None);
    let j = encode_record(EventStandard::Nep141, EventKind::Transfer, &d);
    assert!(decode_record(EventStandard::Nep141, EventKind::Transfer, &j).is_some());
    let missing_amount = Json::Object(vec![
        ("old_owner_id".to_string(), Json::Str("a".to_string())),
        ("new_owner_id".to_string(), Json::Str("b".to_string())),
    ]);
    assert!(decode_record(EventStandard::Nep141, EventKind::Transfer, &missing_amount).is_none());
    assert!(decode_record(EventStandard::Nep171, EventKind::Mint, &missing_amount).is_none());
    let bad_memo = Json::Object(vec![
        ("owner_id".to_string(), Json::Str("a".to_string())),
        ("token_ids".to_string(), Json::Array(vec![])),
        ("memo".to_string(), Json::Bool(true)),
    ]);
    assert!(decode_record(EventStandard::Nep171, EventKind::Mint, &bad_memo).is_none());
}

#[test]
fn new_wallet_entry_is_keyed_by_wallet() {
    let w = NearWalletTokensDB::new("w1");
    assert_eq!(w.key(), "w1");
    assert_eq!(w.near_wallet, "w1");
    assert!(w.tokens.is_empty());
}
