use hedera::id::AccountId;
use hedera::precheck::PreCheckCode;
use hedera::proto;
use hedera::timestamp::{Duration, Timestamp};
use hedera::transaction_id::TransactionId;
use hedera::wire;

fn hex(bytes: &[u8]) -> String {
    bytes.iter().map(|b| format!("{:02x}", b)).collect()
}

#[test]
fn varint_is_seven_bits_a_byte() {
    for (v, expected) in [
        (0u64, "00"),
        (1, "01"),
        (127, "7f"),
        (128, "8001"),
        (300, "ac02"),
        (16383, "ff7f"),
        (16384, "808001"),
        (u64::MAX, "ffffffffffffffffff01"),
    ] {
        let mut out = Vec::new();
        wire::put_varint(&mut out, v);
        assert_eq!(hex(&out), expected);
    }
}

#[test]
fn fields_are_tagged_with_number_and_kind() {
    let mut out = Vec::new();
    wire::put_uint(&mut out, 1, 150);
    assert_eq!(hex(&out), "089601");
    let mut out = Vec::new();
    wire::put_uint(&mut out, 16, 0);
    assert_eq!(hex(&out), "800100");
    let mut out = Vec::new();
    wire::put_bytes(&mut out, 2, b"testing");
    assert_eq!(hex(&out), "120774657374696e67");
    let mut out = Vec::new();
    wire::put_bytes(&mut out, 6, b"");
    assert_eq!(hex(&out), "3200");
    let mut out = vec![0xee];
    wire::put_uint(&mut out, 0x1fff_ffff, 1);
    assert_eq!(hex(&out), "eef8ffffff0f01");
}

#[test]
fn signed_numbers_are_folded() {
    for (v, expected) in [
        (0i64, "1000"),
        (-1, "1001"),
        (1, "1002"),
        (-2, "1003"),
        (100, "10c801"),
        (-100, "10c701"),
        (i64::MAX, "10feffffffffffffffff01"),
        (i64::MIN, "10ffffffffffffffffff01"),
    ] {
        let mut out = Vec::new();
        wire::put_sint(&mut out, 2, v);
        assert_eq!(hex(&out), expected);
    }
}

#[test]
fn parsed_fields_keep_their_order() {
    let bytes = [0x08, 0x01, 0x08, 0x02, 0x12, 0x01, 0x61, 0x12, 0x00, 0x18, 0x07];
    assert_eq!(wire::read_scalar(&bytes, 1), Some(2));
    assert_eq!(wire::read_scalar(&bytes, 3), Some(7));
    assert_eq!(wire::read_scalar(&bytes, 4), Some(0));
    assert_eq!(wire::read_scalar(&bytes, 2), Some(0));
    assert_eq!(wire::read_chunks(&bytes, 2), Some(vec![b"a".to_vec(), Vec::new()]));
    assert_eq!(wire::read_chunks(&bytes, 1), Some(Vec::new()));
    assert_eq!(wire::read_chunk(&bytes, 2), Some(Vec::new()));
    assert_eq!(wire::read_chunk(&bytes[..7], 2), Some(b"a".to_vec()));
    assert_eq!(wire::read_chunk(&bytes, 9), Some(Vec::new()));
    assert_eq!(wire::read_opt_chunk(&bytes, 9), Some(None));
    assert_eq!(wire::read_opt_chunk(&bytes, 2), Some(Some(Vec::new())));
    assert_eq!(wire::read_opt_chunk(&bytes[..7], 2), Some(Some(b"a".to_vec())));
}

#[test]
fn malformed_messages_are_refused() {
    for bad in [&[0x08][..], &[0x12, 0x05, 0x61], &[0x00, 0x01], &[0x0f, 0x01], &[0x80]] {
        assert_eq!(wire::read_scalar(bad, 1), None);
        assert_eq!(wire::read_chunks(bad, 2), None);
        assert_eq!(wire::read_chunk(bad, 2), None);
        assert_eq!(wire::read_opt_chunk(bad, 2), None);
    }
    assert_eq!(wire::read_scalar(&[], 1), Some(0));
}

#[test]
fn a_field_lookup_is_summed_up() {
    assert_eq!(wire::scalar_from(Ok(None)), Some(0));
    let found = wire::FieldValues { varints: vec![4, 5, 6], chunks: vec![b"x".to_vec()] };
    assert_eq!(wire::scalar_from(Ok(Some(found))), Some(6));
    let found = wire::FieldValues { varints: Vec::new(), chunks: vec![b"x".to_vec()] };
    assert_eq!(wire::scalar_from(Ok(Some(found))), Some(0));
    let found = wire::FieldValues { varints: vec![4], chunks: vec![b"x".to_vec(), b"y".to_vec()] };
    assert_eq!(wire::chunks_from(Ok(Some(found))), Some(vec![b"x".to_vec(), b"y".to_vec()]));
    assert_eq!(wire::chunks_from(Ok(None)), Some(Vec::new()));
    let failure = || protobuf::ProtobufError::WireError(protobuf::error::WireError::UnexpectedEof);
    assert_eq!(wire::scalar_from(Err(failure())), None);
    assert_eq!(wire::chunks_from(Err(failure())), None);
}

#[test]
fn account_address_on_the_wire() {
    let id = AccountId::new(1, 2, 300);
    let bytes = proto::encode_account(&id);
    assert_eq!(hex(&bytes), "0801100218ac02");
    assert_eq!(proto::decode_account(&bytes), Some(id));
    assert_eq!(proto::decode_account(&[]), Some(AccountId::new(0, 0, 0)));
    assert_eq!(proto::decode_account(&[0x18, 0x02]), Some(AccountId::new(0, 0, 2)));
    assert_eq!(proto::decode_account(&[0x18, 0x02, 0x18, 0x03]), Some(AccountId::new(0, 0, 3)));
    assert_eq!(proto::decode_account(&[0x18]), None);
    let limit = AccountId::new(u64::MAX, u64::MAX, u64::MAX);
    assert_eq!(proto::decode_account(&proto::encode_account(&limit)), Some(limit));
}

#[test]
fn times_on_the_wire() {
    let t = Timestamp::new(1544713200, 42);
    let bytes = proto::encode_timestamp(&t);
    assert_eq!(hex(&bytes), "08f0e7c9e005102a");
    assert_eq!(proto::decode_timestamp(&bytes), Some(t));
    assert_eq!(proto::decode_timestamp(&[]), Some(Timestamp::new(0, 0)));
    assert_eq!(proto::decode_timestamp(&[0x10, 0xff, 0xff, 0xff, 0xff, 0x0f]), Some(
        Timestamp::new(0, u32::MAX),
    ));
    assert_eq!(proto::decode_timestamp(&[0x10, 0x80, 0x80, 0x80, 0x80, 0x10]), None);
    assert_eq!(proto::decode_timestamp(&[0x10]), None);
    assert_eq!(hex(&proto::encode_duration(&Duration::new(7890000, 0))), "08d0c8e1031000");
}

#[test]
fn transaction_id_on_the_wire() {
    let id = TransactionId::new(AccountId::new(0, 0, 2), Timestamp::new(1, 0));
    let bytes = proto::encode_transaction_id(&id);
    assert_eq!(hex(&bytes), "0a04080110001206080010001802");
    assert_eq!(proto::decode_transaction_id(&bytes), Some(id));
    assert_eq!(TransactionId::from_str(&hex(&bytes)), Ok(id));
    assert_eq!(proto::decode_transaction_id(&[0x0a, 0x01, 0x08]), None);
    assert_eq!(proto::decode_transaction_id(&[0x12, 0x01, 0x18]), None);
    assert_eq!(proto::decode_transaction_id(&[0x0a]), None);
    let limit = TransactionId::new(
        AccountId::new(u64::MAX, 1, 2),
        Timestamp::new(u64::MAX, u32::MAX),
    );
    assert_eq!(proto::decode_transaction_id(&proto::encode_transaction_id(&limit)), Some(limit));
}

#[test]
fn precheck_code_on_the_wire() {
    assert_eq!(proto::decode_precheck(&[]), Some(PreCheckCode::Success));
    assert_eq!(proto::decode_precheck(&[0x08, 0x00]), Some(PreCheckCode::Success));
    assert_eq!(proto::decode_precheck(&[0x08, 0x04]), Some(PreCheckCode::InsufficientBalance));
    assert_eq!(proto::decode_precheck(&[0x08, 0x07]), Some(PreCheckCode::NotSupported));
    assert_eq!(proto::decode_precheck(&[0x08, 0x08]), Some(PreCheckCode::Unknown(8)));
    let minus_one = [0x08, 0xff, 0xff, 0xff, 0xff, 0xff, 0xff, 0xff, 0xff, 0xff, 0x01];
    assert_eq!(proto::decode_precheck(&minus_one), Some(PreCheckCode::Unknown(-1)));
    assert_eq!(proto::decode_precheck(&[0x08, 0x80, 0x80, 0x80, 0x80, 0x08]), None);
    assert_eq!(proto::decode_precheck(&[0x08]), None);
}

#[test]
fn wire_numbers_as_signed_32_bit() {
    assert_eq!(proto::decode_int32(0), Some(0));
    assert_eq!(proto::decode_int32(0x7fff_ffff), Some(i32::MAX));
    assert_eq!(proto::decode_int32(0x8000_0000), None);
    assert_eq!(proto::decode_int32(u64::MAX), Some(-1));
    assert_eq!(proto::decode_int32(0xffff_ffff_8000_0000), Some(i32::MIN));
    assert_eq!(proto::decode_int32(0xffff_ffff_7fff_ffff), None);
}
