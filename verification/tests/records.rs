use hedera::id::AccountId;
use hedera::timestamp::Timestamp;
use hedera::transaction_id::TransactionId;
use hedera::transaction_record::TransactionRecord;

fn hex(bytes: &[u8]) -> String {
    bytes.iter().map(|b| format!("{:02x}", b)).collect()
}

fn full() -> TransactionRecord {
    TransactionRecord {
        account_id: AccountId::new(0, 0, 2),
        transaction_hash: vec![0xab, 0xcd],
        consensus_timestamp: Some(Timestamp::new(10, 20)),
        transaction_id: Some(TransactionId::new(AccountId::new(0, 0, 2), Timestamp::new(1, 5))),
        memo: Some("hi".to_string()),
        transaction_fee: 7,
    }
}

fn bare() -> TransactionRecord {
    TransactionRecord {
        account_id: AccountId::new(0, 0, 2),
        transaction_hash: Vec::new(),
        consensus_timestamp: None,
        transaction_id: None,
        memo: None,
        transaction_fee: 0,
    }
}

#[test]
fn record_text() {
    assert_eq!(full().to_string(), "0:0:2->0:0:2@1.5#abcd::hi@10.20.7");
    assert_eq!(bare().to_string(), "0:0:2->#::@.0");
    let mut record = full();
    record.memo = Some("caf\u{e9} \u{2615}".to_string());
    record.transaction_fee = u64::MAX;
    assert_eq!(
        record.to_string(),
        "0:0:2->0:0:2@1.5#abcd::caf\u{e9} \u{2615}@10.20.18446744073709551615"
    );
}

#[test]
fn record_on_the_wire() {
    assert_eq!(
        hex(&full().to_proto()),
        "0a060800100018021202abcd1a04080a1014220e0a040801100512060800100018022a0268693007"
    );
    assert_eq!(hex(&bare().to_proto()), "0a0608001000180212003000");
}

#[test]
fn record_is_read_from_the_wire() {
    assert_eq!(TransactionRecord::from_proto(&full().to_proto()), Some(full()));
    assert_eq!(TransactionRecord::from_proto(&bare().to_proto()), Some(bare()));
    let mut empty = bare();
    empty.account_id = AccountId::new(0, 0, 0);
    assert_eq!(TransactionRecord::from_proto(&[]), Some(empty));
    let mut record = full();
    record.memo = Some(String::new());
    assert_eq!(TransactionRecord::from_proto(&record.to_proto()), Some(record.clone()));
    assert_ne!(record, full());
}

#[test]
fn unreadable_records_are_refused() {
    assert_eq!(TransactionRecord::from_proto(&[0x0a]), None);
    assert_eq!(TransactionRecord::from_proto(&[0x0a, 0x01, 0x08]), None);
    assert_eq!(TransactionRecord::from_proto(&[0x1a, 0x01, 0x08]), None);
    assert_eq!(TransactionRecord::from_proto(&[0x22, 0x01, 0x0a]), None);
    assert_eq!(TransactionRecord::from_proto(&[0x2a, 0x01, 0xff]), None);
    assert_eq!(TransactionRecord::from_proto(&[0x2a, 0x02, 0xc3, 0x28]), None);
    let read = TransactionRecord::from_proto(&[0x2a, 0x02, 0xc3, 0xa9]).unwrap();
    assert_eq!(read.memo, Some("\u{e9}".to_string()));
}
