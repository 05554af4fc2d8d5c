use hedera::bridge::{
    hedera_transaction__create_account__new, hedera_transaction__create_account__set_initial_balance,
    hedera_transaction__create_account__set_key, hedera_transaction__crypto_transfer__add_transfer,
    hedera_transaction__crypto_transfer__new, hedera_transaction__crypto_update__new,
    hedera_transaction__crypto_update__set_account_id_to_update,
    hedera_transaction__crypto_update__set_auto_renew_period,
    hedera_transaction__crypto_update__set_expiration_time,
    hedera_transaction__crypto_update__set_key,
    hedera_transaction__crypto_update__set_proxy_account_id,
    hedera_transaction__crypto_update__set_proxy_fraction,
    hedera_transaction__crypto_update__set_receive_record_threshold,
    hedera_transaction__crypto_update__set_send_record_threshold, hedera_transaction_execute,
    hedera_transaction_free, hedera_transaction_set_memo, hedera_transaction_set_node,
    hedera_transaction_set_operator, hedera_transaction_sign, HandleTable,
};
use hedera::client::Client;
use hedera::id::AccountId;
use hedera::key::{PublicKey, SecretKey};
use hedera::timestamp::{Duration, Timestamp};
use hedera::transaction::Submission;
use hedera::transaction_id::TransactionId;

const RFC_SECRET: &str = "9d61b19deffd5a60ba844af492ec2cc44449c5697b326919703bac031cae7f60";
const RFC_PUBLIC: &str = "d75a980182b10ab7d54bfed3c964073a0ee172f3daa62325af021a68f707511a";
const INVALID_STATE: u64 = 4;
const MISSING_SIGNATURE: u64 = 2;

fn hex(bytes: &[u8]) -> String {
    bytes.iter().map(|b| format!("{:02x}", b)).collect()
}

fn table_with_client() -> (HandleTable, u64) {
    let mut table = HandleTable::new();
    let client = table.add_client(Client::new(
        AccountId::new(0, 0, 3),
        AccountId::new(0, 0, 2),
        public(),
    ));
    (table, client)
}

fn blank() -> Submission {
    Submission {
        id: TransactionId::new(AccountId::new(9, 9, 9), Timestamp::new(9, 9)),
        request: vec![9],
    }
}

fn secret() -> SecretKey {
    SecretKey::from_str(RFC_SECRET).unwrap()
}

fn public() -> PublicKey {
    PublicKey::from_str(RFC_PUBLIC).unwrap()
}

#[test]
fn handles_are_issued_in_order_and_never_null() {
    let mut table = HandleTable::new();
    assert_eq!(table.live_transactions(), 0);
    let first = table.add_client(Client::new(
        AccountId::new(0, 0, 3),
        AccountId::new(0, 0, 2),
        public(),
    ));
    let second = table.add_client(Client::new(
        AccountId::new(0, 0, 4),
        AccountId::new(0, 0, 2),
        public(),
    ));
    assert_eq!((first, second), (1, 2));
    assert_eq!(table.client(first).unwrap().node, AccountId::new(0, 0, 3));
    assert_eq!(table.client(first).unwrap().operator_key, public());
    assert_eq!(table.client(second).unwrap().node, AccountId::new(0, 0, 4));
    assert_eq!(table.client(0), None);
    assert_eq!(table.client(3), None);
    let a = hedera_transaction__create_account__new(&mut table, first);
    let b = hedera_transaction__crypto_transfer__new(&mut table, second);
    let c = hedera_transaction__crypto_update__new(&mut table, first);
    assert_eq!((a, b, c), (1, 2, 3));
    assert_eq!(table.live_transactions(), 3);
    assert!(table.is_live(a) && table.is_live(b) && table.is_live(c));
    assert!(!table.is_live(0) && !table.is_live(4));
}

#[test]
fn creation_leaves_the_client_with_the_caller() {
    let (mut table, client) = table_with_client();
    let before = table.client(client);
    let tx = hedera_transaction__create_account__new(&mut table, client);
    assert_ne!(tx, 0);
    assert_eq!(table.client(client), before);
    let again = hedera_transaction__create_account__new(&mut table, client);
    assert_ne!(again, 0);
    assert_ne!(again, tx);
    assert_eq!(table.client(client), before);
}

#[test]
fn creation_for_an_unknown_client_gives_the_null_handle() {
    let (mut table, client) = table_with_client();
    assert_eq!(hedera_transaction__create_account__new(&mut table, client + 1), 0);
    assert_eq!(hedera_transaction__crypto_transfer__new(&mut table, 77), 0);
    assert_eq!(hedera_transaction__crypto_update__new(&mut table, u64::MAX), 0);
    assert_eq!(table.live_transactions(), 0);
}

#[test]
fn create_mutate_execute_frees_exactly_once() {
    let (mut table, client) = table_with_client();
    let tx = hedera_transaction__create_account__new(&mut table, client);
    assert_eq!(table.live_transactions(), 1);
    assert_eq!(hedera_transaction_set_operator(&mut table, tx, AccountId::new(0, 0, 7)), 0);
    assert_eq!(hedera_transaction_set_node(&mut table, tx, AccountId::new(0, 0, 5)), 0);
    assert_eq!(hedera_transaction_set_memo(&mut table, tx, "memo"), 0);
    assert_eq!(hedera_transaction__create_account__set_key(&mut table, tx, public()), 0);
    assert_eq!(hedera_transaction__create_account__set_initial_balance(&mut table, tx, 10), 0);
    assert_eq!(hedera_transaction_sign(&mut table, tx, secret()), 0);
    assert_eq!(table.live_transactions(), 1);
    assert!(table.is_live(tx));

    let mut out = blank();
    assert_eq!(hedera_transaction_execute(&mut table, tx, &mut out), 0);
    assert_eq!(out.id.account_id, AccountId::new(0, 0, 7));
    assert!(hex(&out.request).contains(RFC_PUBLIC));
    assert!(hex(&out.request).contains("32046d656d6f"));
    assert_eq!(table.live_transactions(), 0);
    assert!(!table.is_live(tx));

    let sent = Submission { id: out.id, request: out.request.clone() };
    assert_eq!(hedera_transaction_execute(&mut table, tx, &mut out), INVALID_STATE);
    assert_eq!(out, sent);
    assert_eq!(hedera_transaction_free(&mut table, tx), INVALID_STATE);
    assert_eq!(hedera_transaction_set_memo(&mut table, tx, "late"), INVALID_STATE);
    assert_eq!(hedera_transaction_sign(&mut table, tx, secret()), INVALID_STATE);
    assert_eq!(table.live_transactions(), 0);
}

#[test]
fn a_handle_that_is_never_executed_is_freed_once() {
    let (mut table, client) = table_with_client();
    let kept = hedera_transaction__crypto_transfer__new(&mut table, client);
    let tx = hedera_transaction__crypto_transfer__new(&mut table, client);
    assert_eq!(table.live_transactions(), 2);
    assert_eq!(hedera_transaction_free(&mut table, tx), 0);
    assert_eq!(table.live_transactions(), 1);
    assert_eq!(hedera_transaction_free(&mut table, tx), INVALID_STATE);
    assert_eq!(table.live_transactions(), 1);
    assert!(table.is_live(kept));
    let next = hedera_transaction__crypto_transfer__new(&mut table, client);
    assert_ne!(next, tx);
    assert!(!table.is_live(tx));
    assert_eq!(hedera_transaction_free(&mut table, kept), 0);
    assert_eq!(hedera_transaction_free(&mut table, next), 0);
    assert_eq!(table.live_transactions(), 0);
}

#[test]
fn execution_consumes_the_handle_even_when_it_fails() {
    let (mut table, client) = table_with_client();
    let tx = hedera_transaction__create_account__new(&mut table, client);
    let mut out = blank();
    assert_eq!(hedera_transaction_execute(&mut table, tx, &mut out), MISSING_SIGNATURE);
    assert_eq!(out, blank());
    assert!(!table.is_live(tx));
    assert_eq!(table.live_transactions(), 0);
    assert_eq!(hedera_transaction_execute(&mut table, tx, &mut out), INVALID_STATE);
    assert_eq!(hedera_transaction_free(&mut table, tx), INVALID_STATE);
}

#[test]
fn stale_and_unknown_handles_are_refused() {
    let (mut table, client) = table_with_client();
    let tx = hedera_transaction__crypto_update__new(&mut table, client);
    assert_eq!(hedera_transaction_set_operator(&mut table, tx + 1, AccountId::new(0, 0, 7)), 4);
    assert_eq!(hedera_transaction_set_node(&mut table, u64::MAX, AccountId::new(0, 0, 7)), 4);
    assert_eq!(hedera_transaction__crypto_update__set_proxy_fraction(&mut table, 99, 1), 4);
    let mut out = blank();
    assert_eq!(hedera_transaction_execute(&mut table, tx + 1, &mut out), INVALID_STATE);
    assert_eq!(out, blank());
    assert!(table.is_live(tx));
}

#[test]
fn setters_of_another_kind_are_refused_and_keep_the_handle() {
    let (mut table, client) = table_with_client();
    let tx = hedera_transaction__crypto_transfer__new(&mut table, client);
    let id = AccountId::new(0, 0, 9);
    assert_eq!(hedera_transaction__create_account__set_key(&mut table, tx, public()), 4);
    assert_eq!(hedera_transaction__create_account__set_initial_balance(&mut table, tx, 1), 4);
    assert_eq!(hedera_transaction__crypto_update__set_key(&mut table, tx, public()), 4);
    assert_eq!(hedera_transaction__crypto_update__set_account_id_to_update(&mut table, tx, id), 4);
    assert!(table.is_live(tx));
    assert_eq!(hedera_transaction__crypto_transfer__add_transfer(&mut table, tx, id, -5), 0);
    assert_eq!(hedera_transaction__crypto_transfer__add_transfer(&mut table, tx, id, 5), 0);
    let creation = hedera_transaction__create_account__new(&mut table, client);
    assert_eq!(hedera_transaction__crypto_transfer__add_transfer(&mut table, creation, id, 5), 4);
    assert_eq!(hedera_transaction__crypto_update__set_key(&mut table, creation, public()), 4);
    assert_eq!(hedera_transaction__create_account__set_key(&mut table, creation, public()), 0);
    let update = hedera_transaction__crypto_update__new(&mut table, client);
    assert_eq!(hedera_transaction__create_account__set_key(&mut table, update, public()), 4);
    assert_eq!(hedera_transaction__crypto_update__set_key(&mut table, update, public()), 0);
    assert_eq!(table.live_transactions(), 3);
}

#[test]
fn every_update_setter_reaches_the_body() {
    let (mut table, client) = table_with_client();
    let tx = hedera_transaction__crypto_update__new(&mut table, client);
    let id = AccountId::new(0, 0, 9);
    let numbered: Vec<u8> = (0u8..32).collect();
    let key = PublicKey::from_bytes(&numbered).unwrap();
    assert_eq!(hedera_transaction__crypto_update__set_account_id_to_update(&mut table, tx, id), 0);
    assert_eq!(hedera_transaction__crypto_update__set_key(&mut table, tx, key), 0);
    assert_eq!(
        hedera_transaction__crypto_update__set_proxy_account_id(
            &mut table,
            tx,
            AccountId::new(0, 0, 8)
        ),
        0
    );
    assert_eq!(hedera_transaction__crypto_update__set_proxy_fraction(&mut table, tx, -3), 0);
    assert_eq!(hedera_transaction__crypto_update__set_send_record_threshold(&mut table, tx, 10), 0);
    assert_eq!(
        hedera_transaction__crypto_update__set_receive_record_threshold(&mut table, tx, 20),
        0
    );
    assert_eq!(
        hedera_transaction__crypto_update__set_auto_renew_period(
            &mut table,
            tx,
            Duration::new(7890000, 0)
        ),
        0
    );
    assert_eq!(
        hedera_transaction__crypto_update__set_expiration_time(
            &mut table,
            tx,
            Timestamp::new(99, 1)
        ),
        0
    );
    assert_eq!(hedera_transaction_sign(&mut table, tx, secret()), 0);
    let mut out = blank();
    assert_eq!(hedera_transaction_execute(&mut table, tx, &mut out), 0);
    assert!(hex(&out.request).contains(
        "7a4712060800100018091a20000102030405060708090a0b0c0d0e0f101112131415161718191a1b1c1d1e1f\
         22060800100018082805300a3814420708d0c8e10310004a0408631001"
    ));
}

#[test]
fn handles_work_independently() {
    let (mut table, client) = table_with_client();
    let first = hedera_transaction__crypto_transfer__new(&mut table, client);
    let second = hedera_transaction__crypto_transfer__new(&mut table, client);
    assert_eq!(hedera_transaction_set_memo(&mut table, first, "one"), 0);
    assert_eq!(hedera_transaction_set_memo(&mut table, second, "two"), 0);
    assert_eq!(hedera_transaction_sign(&mut table, first, secret()), 0);
    assert_eq!(hedera_transaction_sign(&mut table, second, secret()), 0);
    let mut out_second = blank();
    assert_eq!(hedera_transaction_execute(&mut table, second, &mut out_second), 0);
    assert!(table.is_live(first));
    let mut out_first = blank();
    assert_eq!(hedera_transaction_execute(&mut table, first, &mut out_first), 0);
    assert!(hex(&out_first.request).contains("32036f6e65"));
    assert!(hex(&out_second.request).contains("320374776f"));
}

#[test]
fn execution_needs_the_operator_among_the_signers() {
    let (mut table, client) = table_with_client();
    let stranger = || SecretKey::from_bytes(&[7u8; 32]).unwrap();
    let tx = hedera_transaction__crypto_transfer__new(&mut table, client);
    assert_eq!(hedera_transaction_sign(&mut table, tx, stranger()), 0);
    assert_eq!(hedera_transaction_sign(&mut table, tx, stranger()), 0);
    let mut out = blank();
    assert_eq!(hedera_transaction_execute(&mut table, tx, &mut out), MISSING_SIGNATURE);
    assert_eq!(out, blank());
    assert!(!table.is_live(tx));

    let tx = hedera_transaction__crypto_transfer__new(&mut table, client);
    assert_eq!(hedera_transaction_sign(&mut table, tx, stranger()), 0);
    assert_eq!(hedera_transaction_sign(&mut table, tx, secret()), 0);
    assert_eq!(hedera_transaction_execute(&mut table, tx, &mut out), 0);
    assert!(hex(&out.request).contains(RFC_PUBLIC));
}

#[test]
fn a_change_made_through_the_table_is_signed_too() {
    let (mut table, client) = table_with_client();
    let tx = hedera_transaction__create_account__new(&mut table, client);
    assert_eq!(hedera_transaction_sign(&mut table, tx, secret()), 0);
    assert_eq!(hedera_transaction_set_memo(&mut table, tx, "late"), 0);
    let mut out = blank();
    assert_eq!(hedera_transaction_execute(&mut table, tx, &mut out), 0);
    let body_len = out.request[1] as usize;
    let body = out.request[2..2 + body_len].to_vec();
    assert!(hex(&body).contains("32046c617465"));
    let signature = secret().sign(&body).unwrap();
    assert_eq!(&out.request[out.request.len() - 64..], signature.as_bytes());
}
