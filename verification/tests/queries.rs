use hedera::client::Client;
use hedera::error::{ErrorKind, TransportError};
use hedera::id::AccountId;
use hedera::key::PublicKey;
use hedera::precheck::PreCheckCode;
use hedera::query::Query;
use hedera::timestamp::Timestamp;
use hedera::transaction_id::TransactionId;
use hedera::transaction_record::TransactionRecord;
use hedera::query_get_account_records::{
    CryptoGetAccountRecordsResponse, QueryGetAccountRecords, QueryHeader, Response,
    ResponseHeader,
};

fn hex(bytes: &[u8]) -> String {
    bytes.iter().map(|b| format!("{:02x}", b)).collect()
}

fn client() -> Client {
    let key = PublicKey::from_bytes(&[5u8; 32]).unwrap();
    Client::new(AccountId::new(0, 0, 3), AccountId::new(0, 0, 2), key)
}

fn response(code: i32, balance: u64) -> Response {
    Response {
        crypto_get_account_records: CryptoGetAccountRecordsResponse {
            header: ResponseHeader { node_transaction_precheck_code: code },
            balance,
        },
    }
}

#[test]
fn the_query_goes_to_the_clients_node() {
    let query = Query::get_account_records(&client(), AccountId::new(0, 0, 5));
    assert_eq!(query.target(), AccountId::new(0, 0, 3));
    assert!(!query.is_executed());
}

#[test]
fn the_query_on_the_wire() {
    let inner = QueryGetAccountRecords::new(AccountId::new(0, 0, 5));
    assert_eq!(inner.account(), AccountId::new(0, 0, 5));
    let free = QueryHeader { payment: Vec::new() };
    assert_eq!(hex(&inner.to_query_proto(&free)), "420c0a020a001206080010001805");
    let paid = QueryHeader { payment: vec![1, 2] };
    assert_eq!(hex(&inner.to_query_proto(&paid)), "420e0a040a0201021206080010001805");
}

#[test]
fn the_target_can_be_chosen_until_execution() {
    let mut query = Query::get_account_records(&client(), AccountId::new(0, 0, 5));
    assert_eq!(query.node(AccountId::new(0, 0, 4)), Ok(()));
    assert_eq!(query.target(), AccountId::new(0, 0, 4));
    query.execute(&QueryHeader { payment: Vec::new() }).unwrap();
    assert_eq!(query.node(AccountId::new(0, 0, 6)), Err(ErrorKind::InvalidState));
    assert_eq!(query.target(), AccountId::new(0, 0, 4));
}

#[test]
fn a_query_is_executed_once() {
    let mut query = Query::get_account_records(&client(), AccountId::new(0, 0, 5));
    let header = QueryHeader { payment: Vec::new() };
    let request = query.execute(&header).unwrap();
    assert_eq!(hex(&request), "420c0a020a001206080010001805");
    assert!(query.is_executed());
    assert_eq!(query.execute(&header), Err(ErrorKind::InvalidState));
    assert_eq!(query.execute(&header), Err(ErrorKind::InvalidState));
    assert!(query.is_executed());
}

#[test]
fn the_answer_is_read_under_the_success_code() {
    let inner = QueryGetAccountRecords::new(AccountId::new(0, 0, 5));
    assert_eq!(inner.answer(response(0, 77)), Ok(77));
    assert_eq!(inner.answer(response(0, 0)), Ok(0));
    assert_eq!(inner.answer(response(0, u64::MAX)), Ok(u64::MAX));
}

#[test]
fn a_rejection_hides_the_payload() {
    let inner = QueryGetAccountRecords::new(AccountId::new(0, 0, 5));
    assert_eq!(
        inner.answer(response(4, 77)),
        Err(ErrorKind::PreCheck(PreCheckCode::InsufficientBalance))
    );
    assert_eq!(inner.answer(response(4, 77)), inner.answer(response(4, 0)));
    for (raw, code) in [
        (1, PreCheckCode::InvalidTransaction),
        (2, PreCheckCode::InvalidAccount),
        (3, PreCheckCode::InsufficientFee),
        (5, PreCheckCode::Duplicate),
        (6, PreCheckCode::Busy),
        (7, PreCheckCode::NotSupported),
        (8, PreCheckCode::Unknown(8)),
        (-1, PreCheckCode::Unknown(-1)),
        (i32::MIN, PreCheckCode::Unknown(i32::MIN)),
    ] {
        assert_eq!(inner.answer(response(raw, 77)), Err(ErrorKind::PreCheck(code)));
    }
}

#[test]
fn replies_are_read_from_the_wire() {
    assert_eq!(Response::from_wire(&[0x42, 0x06, 0x0a, 0x02, 0x08, 0x00, 0x10, 0x4d]), Some(
        response(0, 77),
    ));
    assert_eq!(Response::from_wire(&[0x42, 0x06, 0x0a, 0x02, 0x08, 0x04, 0x10, 0x4d]), Some(
        response(4, 77),
    ));
    assert_eq!(Response::from_wire(&[]), Some(response(0, 0)));
    assert_eq!(Response::from_wire(&[0x42, 0x02, 0x10, 0x4d]), Some(response(0, 77)));
    assert_eq!(Response::from_wire(&[0x42]), None);
    assert_eq!(Response::from_wire(&[0x42, 0x01, 0x10]), None);
    assert_eq!(Response::from_wire(&[0x42, 0x03, 0x0a, 0x01, 0x08]), None);
    assert_eq!(
        Response::from_wire(&[0x42, 0x08, 0x0a, 0x06, 0x08, 0x80, 0x80, 0x80, 0x80, 0x08]),
        None
    );
}

#[test]
fn the_reply_decides_the_answer() {
    let query = Query::get_account_records(&client(), AccountId::new(0, 0, 5));
    let accepted = vec![0x42, 0x06, 0x0a, 0x02, 0x08, 0x00, 0x10, 0x4d];
    let rejected = vec![0x42, 0x06, 0x0a, 0x02, 0x08, 0x04, 0x10, 0x4d];
    assert_eq!(query.answer(Ok(accepted)), Ok(77));
    assert_eq!(
        query.answer(Ok(rejected)),
        Err(ErrorKind::PreCheck(PreCheckCode::InsufficientBalance))
    );
    assert_eq!(query.answer(Ok(vec![0x42])), Err(ErrorKind::Transport));
    assert_eq!(query.answer(Err(TransportError {})), Err(ErrorKind::Transport));
}

fn unhex(text: &str) -> Vec<u8> {
    (0..text.len()).step_by(2).map(|i| u8::from_str_radix(&text[i..i + 2], 16).unwrap()).collect()
}

fn listed() -> Vec<TransactionRecord> {
    vec![
        TransactionRecord {
            account_id: AccountId::new(0, 0, 2),
            transaction_hash: vec![0xab, 0xcd],
            consensus_timestamp: Some(Timestamp::new(10, 20)),
            transaction_id: Some(TransactionId::new(
                AccountId::new(0, 0, 2),
                Timestamp::new(1, 5),
            )),
            memo: Some("hi".to_string()),
            transaction_fee: 7,
        },
        TransactionRecord {
            account_id: AccountId::new(0, 0, 2),
            transaction_hash: Vec::new(),
            consensus_timestamp: None,
            transaction_id: None,
            memo: None,
            transaction_fee: 0,
        },
    ]
}

const TWO_RECORDS: &str = "423c0a0208001a280a060800100018021202abcd1a04080a1014220e0a0408011005\
                           12060800100018022a02686930071a0c0a0608001000180212003000";
const TWO_RECORDS_REJECTED: &str = "423c0a0208041a280a060800100018021202abcd1a04080a1014220e\
                                    0a040801100512060800100018022a02686930071a0c\
                                    0a0608001000180212003000";

#[test]
fn records_are_listed_in_their_order() {
    let inner = QueryGetAccountRecords::new(AccountId::new(0, 0, 2));
    assert_eq!(inner.records(&unhex(TWO_RECORDS)), Ok(listed()));
    assert_eq!(inner.records(&unhex("42040a020800")), Ok(Vec::new()));
    assert_eq!(inner.records(&[]), Ok(Vec::new()));
    let query = Query::get_account_records(&client(), AccountId::new(0, 0, 2));
    assert_eq!(query.records(Ok(unhex(TWO_RECORDS))), Ok(listed()));
    assert_eq!(query.records(Err(TransportError {})), Err(ErrorKind::Transport));
}

#[test]
fn a_rejection_hides_the_records() {
    let inner = QueryGetAccountRecords::new(AccountId::new(0, 0, 2));
    let rejected = Err(ErrorKind::PreCheck(PreCheckCode::InsufficientBalance));
    assert_eq!(inner.records(&unhex(TWO_RECORDS_REJECTED)), rejected);
    let spoiled = "42310a0208041a280a060800100018021202abcd1a04080a1014220e0a0408011005\
                   12060800100018022a02686930071a010a";
    assert_eq!(inner.records(&unhex(spoiled)), rejected);
    let query = Query::get_account_records(&client(), AccountId::new(0, 0, 2));
    assert_eq!(query.records(Ok(unhex(TWO_RECORDS_REJECTED))), rejected);
}

#[test]
fn unreadable_record_lists_are_transport_errors() {
    let inner = QueryGetAccountRecords::new(AccountId::new(0, 0, 2));
    let spoiled = "42310a0208001a280a060800100018021202abcd1a04080a1014220e0a0408011005\
                   12060800100018022a02686930071a010a";
    assert_eq!(inner.records(&unhex(spoiled)), Err(ErrorKind::Transport));
    assert_eq!(inner.records(&[0x42]), Err(ErrorKind::Transport));
    assert_eq!(inner.records(&[0x42, 0x01, 0x1a]), Err(ErrorKind::Transport));
}
