//! The wire format of messages: numbered fields, each a variable-length
//! integer or a run of bytes with its length in front.
//!
//! Writing is done here; reading is left to the `protobuf` crate, which
//! parses a message into the values found under each field number.

use vstd::prelude::*;
use protobuf::ProtobufError;
use crate::text::pieces;

verus! {

#[verifier::external_type_specification]
#[verifier::external_body]
pub struct ExProtobufError(ProtobufError);

/// The largest field number.
pub const MAX_FIELD: u32 = 0x1fff_ffff;

/// The variable-length spelling of `v`: seven bits a byte, low bits
/// first, the high bit of a byte telling that another byte follows.
pub open spec fn varint(v: nat) -> Seq<u8>
    decreases v,
{
    if v < 128 {
        seq![v as u8]
    } else {
        seq![(v % 128 + 128) as u8] + varint(v / 128)
    }
}

/// How a signed number is folded onto the unsigned ones, so that numbers
/// near zero of either sign stay short: 0, -1, 1, -2, 2, ...
pub open spec fn zigzag(v: int) -> nat {
    if v >= 0 {
        (2 * v) as nat
    } else {
        (-2 * v - 1) as nat
    }
}

/// The signed number that folds onto `n`.
pub open spec fn unzigzag(n: nat) -> int {
    if n % 2 == 0 {
        n as int / 2
    } else {
        -(n as int / 2) - 1
    }
}

/// Folding and unfolding are inverse to each other.
pub proof fn lemma_zigzag_round_trip(v: int, n: nat)
    ensures
        unzigzag(zigzag(v)) == v,
        zigzag(unzigzag(n)) == n,
{
}

/// A field that holds an unsigned number.
pub open spec fn uint_field(field: u32, v: u64) -> Seq<u8> {
    varint((field * 8) as nat) + varint(v as nat)
}

/// A field that holds a signed number, folded.
pub open spec fn sint_field(field: u32, v: i64) -> Seq<u8> {
    varint((field * 8) as nat) + varint(zigzag(v as int))
}

/// A field that holds a run of bytes: text, raw bytes or a message.
pub open spec fn bytes_field(field: u32, payload: Seq<u8>) -> Seq<u8> {
    varint((field * 8 + 2) as nat) + varint(payload.len()) + payload
}

/// Appends the variable-length spelling of `v`.
pub fn put_varint(out: &mut Vec<u8>, v: u64)
    ensures
        final(out)@ == old(out)@ + varint(v as nat),
    decreases v,
{
    if v < 128 {
        out.push(v as u8);
        assert(out@ =~= old(out)@ + varint(v as nat));
    } else {
        out.push((v % 128 + 128) as u8);
        put_varint(out, v / 128);
        assert(final(out)@ =~= old(out)@ + varint(v as nat));
    }
}

/// Appends a field that holds an unsigned number.
pub fn put_uint(out: &mut Vec<u8>, field: u32, v: u64)
    requires
        1 <= field <= MAX_FIELD,
    ensures
        final(out)@ == old(out)@ + uint_field(field, v),
{
    put_varint(out, field as u64 * 8);
    put_varint(out, v);
    assert(out@ =~= old(out)@ + uint_field(field, v));
}

/// Appends a field that holds a signed number.
pub fn put_sint(out: &mut Vec<u8>, field: u32, v: i64)
    requires
        1 <= field <= MAX_FIELD,
    ensures
        final(out)@ == old(out)@ + sint_field(field, v),
{
    put_varint(out, field as u64 * 8);
    let folded: u64 = if v >= 0 {
        (v as u64) * 2
    } else {
        ((-(v + 1)) as u64) * 2 + 1
    };
    put_varint(out, folded);
    assert(out@ =~= old(out)@ + sint_field(field, v));
}

/// Appends a field that holds a run of bytes.
pub fn put_bytes(out: &mut Vec<u8>, field: u32, payload: &[u8])
    requires
        1 <= field <= MAX_FIELD,
    ensures
        final(out)@ == old(out)@ + bytes_field(field, payload@),
{
    put_varint(out, field as u64 * 8 + 2);
    put_varint(out, payload.len() as u64);
    let ghost head = out@;
    let mut i: usize = 0;
    while i < payload.len()
        invariant
            0 <= i <= payload.len(),
            out@ == head + payload@.take(i as int),
        decreases payload.len() - i,
    {
        out.push(payload[i]);
        assert(out@ =~= head + payload@.take(i + 1));
        i = i + 1;
    }
    assert(payload@.take(payload.len() as int) =~= payload@);
    assert(out@ =~= old(out)@ + bytes_field(field, payload@));
}

/// What a parsed message holds under one field number.
pub struct FieldValues {
    /// The numbers, in the order in which they stand in the message.
    pub varints: Vec<u64>,
    /// The runs of bytes, in the order in which they stand in the message.
    pub chunks: Vec<Vec<u8>>,
}

/// What parsing `bytes` as a message finds under `field`: nothing at all
/// when `bytes` is no message; otherwise nothing when the message has no
/// such field, or else the field's numbers and its runs of bytes.
pub uninterp spec fn wire_field(bytes: Seq<u8>, field: u32) -> Option<
    Option<(Seq<u64>, Seq<Seq<u8>>)>,
>;

/// `protobuf::Message::parse_from_bytes` into a message without fields of
/// its own, which keeps every field it meets, then `UnknownFields::get`
/// for `field`. The result is what the parser makes of the bytes and
/// depends on nothing else.
#[verifier::external_body]
pub(crate) fn read_field(bytes: &[u8], field: u32) -> (found: Result<
    Option<FieldValues>,
    ProtobufError,
>)
    ensures
        found matches Ok(Some(v)) ==> wire_field(bytes@, field) == Some(
            Some((v.varints@, pieces(v.chunks@))),
        ),
        found matches Ok(None) ==> wire_field(bytes@, field) == Some(
            None::<(Seq<u64>, Seq<Seq<u8>>)>,
        ),
        found is Err ==> wire_field(bytes@, field) is None,
{
    let message: protobuf::well_known_types::Empty = protobuf::Message::parse_from_bytes(bytes)?;
    Ok(
        protobuf::Message::get_unknown_fields(&message).get(field).map(
            |v| FieldValues { varints: v.varint.clone(), chunks: v.length_delimited.clone() },
        ),
    )
}

/// Whether `bytes` parses as a message.
pub open spec fn is_message(bytes: Seq<u8>, field: u32) -> bool {
    wire_field(bytes, field) is Some
}

/// The numbers under `field`; none when the field is absent.
pub open spec fn field_varints(bytes: Seq<u8>, field: u32) -> Seq<u64> {
    match wire_field(bytes, field) {
        Some(Some(found)) => found.0,
        _ => Seq::empty(),
    }
}

/// The runs of bytes under `field`; none when the field is absent.
pub open spec fn field_chunks(bytes: Seq<u8>, field: u32) -> Seq<Seq<u8>> {
    match wire_field(bytes, field) {
        Some(Some(found)) => found.1,
        _ => Seq::empty(),
    }
}

/// The number that a message gives for `field`: the last one written,
/// zero when there is none. `None` when `bytes` is no message.
pub open spec fn scalar_of(bytes: Seq<u8>, field: u32) -> Option<u64> {
    if !is_message(bytes, field) {
        None
    } else if field_varints(bytes, field).len() == 0 {
        Some(0)
    } else {
        Some(field_varints(bytes, field).last())
    }
}

/// The run of bytes that a message gives for `field`: the last one
/// written, the empty run when there is none. `None` when `bytes` is no
/// message.
pub open spec fn chunk_of(bytes: Seq<u8>, field: u32) -> Option<Seq<u8>> {
    if !is_message(bytes, field) {
        None
    } else if field_chunks(bytes, field).len() == 0 {
        Some(Seq::empty())
    } else {
        Some(field_chunks(bytes, field).last())
    }
}

/// The run of bytes that a message gives for a field that may be unset:
/// the last one written, or the inner `None` when there is none. The
/// outer `None` says that `bytes` is no message.
pub open spec fn opt_chunk_of(bytes: Seq<u8>, field: u32) -> Option<Option<Seq<u8>>> {
    if !is_message(bytes, field) {
        None
    } else if field_chunks(bytes, field).len() == 0 {
        Some(None)
    } else {
        Some(Some(field_chunks(bytes, field).last()))
    }
}

/// Every run of bytes that a message gives for `field`, in order. `None`
/// when `bytes` is no message.
pub open spec fn chunks_of(bytes: Seq<u8>, field: u32) -> Option<Seq<Seq<u8>>> {
    if !is_message(bytes, field) {
        None
    } else {
        Some(field_chunks(bytes, field))
    }
}

/// What a field lookup amounts to as a number.
pub fn scalar_from(found: Result<Option<FieldValues>, ProtobufError>) -> (value: Option<u64>)
    ensures
        value == match found {
            Ok(Some(v)) => if v.varints.len() == 0 {
                Some(0u64)
            } else {
                Some(v.varints@.last())
            },
            Ok(None) => Some(0u64),
            Err(_) => None,
        },
{
    match found {
        Ok(Some(v)) => {
            if v.varints.len() == 0 {
                Some(0)
            } else {
                Some(v.varints[v.varints.len() - 1])
            }
        },
        Ok(None) => Some(0),
        Err(_) => None,
    }
}

/// What a field lookup amounts to as runs of bytes.
pub fn chunks_from(found: Result<Option<FieldValues>, ProtobufError>) -> (value: Option<
    Vec<Vec<u8>>,
>)
    ensures
        match found {
            Ok(Some(v)) => value matches Some(c) && c@ == v.chunks@,
            Ok(None) => value matches Some(c) && c.len() == 0,
            Err(_) => value is None,
        },
{
    match found {
        Ok(Some(v)) => Some(v.chunks),
        Ok(None) => Some(Vec::new()),
        Err(_) => None,
    }
}

/// Reads the number under `field`.
pub fn read_scalar(bytes: &[u8], field: u32) -> (value: Option<u64>)
    ensures
        value == scalar_of(bytes@, field),
{
    scalar_from(read_field(bytes, field))
}

/// Reads every run of bytes under `field`.
pub fn read_chunks(bytes: &[u8], field: u32) -> (value: Option<Vec<Vec<u8>>>)
    ensures
        match value {
            Some(c) => chunks_of(bytes@, field) == Some(pieces(c@)),
            None => chunks_of(bytes@, field) is None,
        },
{
    let value = chunks_from(read_field(bytes, field));
    proof {
        if let Some(c) = &value {
            assert(pieces(c@) =~= field_chunks(bytes@, field));
        }
    }
    value
}

/// Reads the last run of bytes under a field that may be unset.
pub fn read_opt_chunk(bytes: &[u8], field: u32) -> (value: Option<Option<Vec<u8>>>)
    ensures
        match value {
            Some(Some(c)) => opt_chunk_of(bytes@, field) == Some(Some(c@)),
            Some(None) => opt_chunk_of(bytes@, field) == Some(None::<Seq<u8>>),
            None => opt_chunk_of(bytes@, field) is None,
        },
{
    match read_chunks(bytes, field) {
        Some(mut all) => {
            let ghost before = all@;
            assert(pieces(before).len() == before.len());
            match all.pop() {
                Some(last) => {
                    assert(pieces(before).last() == last@);
                    Some(Some(last))
                },
                None => Some(None),
            }
        },
        None => None,
    }
}

/// Reads the last run of bytes under `field`.
pub fn read_chunk(bytes: &[u8], field: u32) -> (value: Option<Vec<u8>>)
    ensures
        match value {
            Some(c) => chunk_of(bytes@, field) == Some(c@),
            None => chunk_of(bytes@, field) is None,
        },
{
    match read_opt_chunk(bytes, field) {
        Some(Some(last)) => Some(last),
        Some(None) => Some(Vec::new()),
        None => None,
    }
}

} // verus!
