use std::collections::BTreeMap;
use txn_feed::fault::Fault;
use txn_feed::key::{key_of, record_key};
use txn_feed::record::{Transaction, TransactionInput};
use txn_feed::service::{conclude_create, create_transaction, list_transactions, stage_transaction};

fn record(id: u128, description: &str, amount: &str) -> Transaction {
    Transaction::new(id, description.to_string(), amount.to_string())
}

fn input(description: &str, amount: &str) -> TransactionInput {
    TransactionInput::new(description.to_string(), amount.to_string())
}

/// What a scan of `store` hands over: every value, in key order.
fn scan(store: &BTreeMap<String, Transaction>) -> Vec<Result<Transaction, Fault>> {
    store.values().map(|record| Ok(record.clone())).collect()
}

#[test]
fn listing_of_an_empty_store_is_empty() {
    assert_eq!(list_transactions(Vec::new()), Ok(Vec::new()));
}

#[test]
fn listing_keeps_every_record_in_scan_order() {
    let entries = vec![
        Ok(record(3, "coffee", "3.50")),
        Ok(record(1, "rent", "950.00")),
        Ok(record(2, "coffee", "3.50")),
    ];
    assert_eq!(
        list_transactions(entries),
        Ok(vec![
            record(3, "coffee", "3.50"),
            record(1, "rent", "950.00"),
            record(2, "coffee", "3.50"),
        ])
    );
}

#[test]
fn listing_of_one_record() {
    assert_eq!(
        list_transactions(vec![Ok(record(5, "tea", "2"))]),
        Ok(vec![record(5, "tea", "2")])
    );
}

#[test]
fn listing_fails_on_an_entry_that_does_not_decode() {
    let entries = vec![
        Ok(record(1, "rent", "950.00")),
        Err(Fault::Decode("missing field `amount`".to_string())),
        Ok(record(2, "coffee", "3.50")),
    ];
    assert_eq!(
        list_transactions(entries),
        Err(Fault::Decode("missing field `amount`".to_string()))
    );
}

#[test]
fn listing_fails_on_an_entry_that_cannot_be_read() {
    let entries = vec![Err(Fault::Storage("read failed".to_string()))];
    assert_eq!(list_transactions(entries), Err(Fault::Storage("read failed".to_string())));
}

#[test]
fn listing_reports_the_first_of_several_faults() {
    let entries = vec![
        Ok(record(1, "rent", "950.00")),
        Err(Fault::Storage("first".to_string())),
        Err(Fault::Decode("second".to_string())),
        Ok(record(2, "coffee", "3.50")),
        Err(Fault::Storage("third".to_string())),
    ];
    assert_eq!(list_transactions(entries), Err(Fault::Storage("first".to_string())));
}

#[test]
fn listing_fails_on_a_fault_in_the_last_entry() {
    let entries = vec![
        Ok(record(1, "rent", "950.00")),
        Ok(record(2, "coffee", "3.50")),
        Err(Fault::Decode("last".to_string())),
    ];
    assert_eq!(list_transactions(entries), Err(Fault::Decode("last".to_string())));
}

#[test]
fn staged_write_carries_the_record_under_its_key() {
    let put = stage_transaction(0xa1a2a3a4b1b2c1c2d1d2d3d4d5d6d7d8, input("coffee", "3.50"));
    assert_eq!(put.key(), "a1a2a3a4-b1b2-c1c2-d1d2-d3d4d5d6d7d8");
    assert_eq!(put.record(), &record(0xa1a2a3a4b1b2c1c2d1d2d3d4d5d6d7d8, "coffee", "3.50"));
}

#[test]
fn created_record_has_the_input_verbatim() {
    let put = create_transaction(input("coffee", "3.50"));
    assert_eq!(put.record().description(), "coffee");
    assert_eq!(put.record().amount(), "3.50");
    let odd = create_transaction(input("", " 1e400 \u{20ac}"));
    assert_eq!(odd.record().description(), "");
    assert_eq!(odd.record().amount(), " 1e400 \u{20ac}");
}

#[test]
fn created_record_is_keyed_by_a_random_identifier() {
    let put = create_transaction(input("coffee", "3.50"));
    let id = put.record().id();
    assert_eq!((id >> 76) & 0xf, 4);
    assert_eq!((id >> 62) & 0x3, 2);
    assert_eq!(put.key(), &key_of(id));
    assert_eq!(put.key(), &record_key(put.record()));
}

#[test]
fn creations_of_the_same_input_get_distinct_identifiers() {
    let mut ids = std::collections::BTreeSet::new();
    let mut keys = std::collections::BTreeSet::new();
    for _ in 0..500 {
        let put = create_transaction(input("coffee", "3.50"));
        assert!(ids.insert(put.record().id()));
        assert!(keys.insert(put.key().clone()));
    }
}

#[test]
fn creation_returns_the_record_once_it_is_stored() {
    let put = create_transaction(input("coffee", "3.50"));
    let written = put.record().clone();
    assert_eq!(conclude_create(put, Ok(())), Ok(written));
}

#[test]
fn creation_returns_the_fault_of_a_failed_write() {
    let put = create_transaction(input("coffee", "3.50"));
    assert_eq!(
        conclude_create(put, Err(Fault::Storage("disk full".to_string()))),
        Err(Fault::Storage("disk full".to_string()))
    );
    let put = stage_transaction(1, input("tea", "2"));
    assert_eq!(
        conclude_create(put, Err(Fault::Decode("overwritten value".to_string()))),
        Err(Fault::Decode("overwritten value".to_string()))
    );
}

#[test]
fn created_record_appears_in_a_later_listing() {
    let mut store: BTreeMap<String, Transaction> = BTreeMap::new();
    let mut created = Vec::new();
    for (description, amount) in [("coffee", "3.50"), ("rent", "950.00"), ("tea", "2")] {
        let put = create_transaction(input(description, amount));
        store.insert(put.key().clone(), put.record().clone());
        let record = conclude_create(put, Ok(())).expect("the write succeeded");
        let listing = list_transactions(scan(&store)).expect("every entry is a record");
        assert_eq!(listing.iter().filter(|listed| **listed == record).count(), 1);
        created.push(record);
        assert_eq!(listing.len(), created.len());
        for earlier in &created {
            assert!(listing.contains(earlier));
        }
    }
}

#[test]
fn listing_follows_the_key_order_of_the_store() {
    let mut store: BTreeMap<String, Transaction> = BTreeMap::new();
    for id in [0xf0u128 << 120, 0x0fu128 << 120, 0xa0u128 << 120] {
        let put = stage_transaction(id, input("x", "1"));
        store.insert(put.key().clone(), put.record().clone());
    }
    let listing = list_transactions(scan(&store)).expect("every entry is a record");
    let ids: Vec<u128> = listing.iter().map(|record| record.id()).collect();
    assert_eq!(ids, vec![0x0fu128 << 120, 0xa0u128 << 120, 0xf0u128 << 120]);
}
