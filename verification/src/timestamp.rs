//! Points in time and spans of time, as the protocol counts them.

use vstd::prelude::*;
use vstd::string::StringSliceAdditionalSpecFns;
use crate::error::ErrorKind;
use crate::id::lemma_decimal_plain;
use crate::text::{
    ascii_chars, decimal_text, decimal_value, free_of, is_ascii_bytes, join,
    lemma_decimal_round_trip, lemma_split_join, parse_decimal, pieces, push_decimal, split,
    split_bytes, string_from_ascii,
};

verus! {

/// The separator between seconds and nanoseconds.
pub const DOT: u8 = 46;

/// Nanoseconds in a second.
pub const NANOS_PER_SECOND: u32 = 1_000_000_000;

/// A point in time: seconds since the epoch, and nanoseconds.
#[derive(Clone, Copy, Debug, PartialEq, Eq, Structural)]
pub struct Timestamp {
    pub seconds: u64,
    pub nanos: u32,
}

/// A span of time: seconds and nanoseconds.
#[derive(Clone, Copy, Debug, PartialEq, Eq, Structural)]
pub struct Duration {
    pub seconds: u64,
    pub nanos: u32,
}

/// The system clock (`std::time::SystemTime::now`) read through chrono's
/// `DateTime<Utc>`: whole seconds since the epoch (`DateTime::timestamp`,
/// negative before it) and the nanoseconds beyond them
/// (`DateTime::timestamp_subsec_nanos`). Nothing is stated of what the
/// clock shows. chrono gives up on a clock that stands more than 262000
/// years from the epoch.
#[verifier::external_body]
pub(crate) fn clock_reading() -> (reading: (i64, u32))
{
    let now = chrono::DateTime::<chrono::Utc>::from(std::time::SystemTime::now());
    (now.timestamp(), now.timestamp_subsec_nanos())
}

/// What a clock reading is as a timestamp: nothing for a time before the
/// epoch; otherwise the reading itself, a leap second (which the clock
/// shows as a second's worth of nanoseconds or more) being counted into
/// the second that follows it. Two seconds' worth of nanoseconds or more
/// is no reading.
pub open spec fn reading_timestamp(seconds: i64, nanos: u32) -> Option<Timestamp> {
    if seconds < 0 || nanos >= 2 * NANOS_PER_SECOND {
        None
    } else if nanos < NANOS_PER_SECOND {
        Some(Timestamp { seconds: seconds as u64, nanos })
    } else {
        Some(Timestamp { seconds: (seconds + 1) as u64, nanos: (nanos - NANOS_PER_SECOND) as u32 })
    }
}

impl Timestamp {
    /// The textual form, `{seconds}.{nanos}`, each number in its shortest
    /// decimal spelling.
    pub open spec fn text(self) -> Seq<u8> {
        decimal_text(self.seconds as nat) + seq![DOT] + decimal_text(self.nanos as nat)
    }

    /// What `s` reads as: exactly two decimal numbers with a dot between
    /// them, the second one fitting 32 bits.
    pub open spec fn read(s: Seq<u8>) -> Option<Timestamp> {
        let parts = split(s, DOT);
        if parts.len() == 2 && decimal_value(parts[0]) is Some && decimal_value(parts[1]) is Some
            && decimal_value(parts[1]).unwrap() <= u32::MAX {
            Some(
                Timestamp {
                    seconds: decimal_value(parts[0]).unwrap(),
                    nanos: decimal_value(parts[1]).unwrap() as u32,
                },
            )
        } else {
            None
        }
    }

    pub fn new(seconds: u64, nanos: u32) -> (t: Timestamp)
        ensures
            t == (Timestamp { seconds, nanos }),
    {
        Timestamp { seconds, nanos }
    }

    /// The timestamp for a clock reading.
    pub fn from_clock(seconds: i64, nanos: u32) -> (t: Option<Timestamp>)
        ensures
            t == reading_timestamp(seconds, nanos),
            t matches Some(ts) ==> ts.nanos < NANOS_PER_SECOND,
    {
        if seconds < 0 || nanos >= 2 * NANOS_PER_SECOND {
            None
        } else if nanos < NANOS_PER_SECOND {
            Some(Timestamp { seconds: seconds as u64, nanos })
        } else {
            Some(Timestamp { seconds: seconds as u64 + 1, nanos: nanos - NANOS_PER_SECOND })
        }
    }

    /// The present time; `None` when the clock gives no usable reading.
    /// A time that is returned has its nanoseconds below a second.
    pub fn now() -> (t: Option<Timestamp>)
        ensures
            t matches Some(ts) ==> ts.nanos < NANOS_PER_SECOND,
    {
        let reading = clock_reading();
        Timestamp::from_clock(reading.0, reading.1)
    }

    /// Reads the textual form from bytes.
    pub fn parse_bytes(text: &[u8]) -> (t: Option<Timestamp>)
        ensures
            t == Timestamp::read(text@),
    {
        let parts = split_bytes(text, DOT);
        assert(pieces(parts@).len() == parts.len());
        if parts.len() != 2 {
            return None;
        }
        assert(pieces(parts@)[0] == parts@[0]@);
        assert(pieces(parts@)[1] == parts@[1]@);
        let seconds = match parse_decimal(parts[0].as_slice()) {
            Some(n) => n,
            None => { return None; },
        };
        let nanos = match parse_decimal(parts[1].as_slice()) {
            Some(n) => n,
            None => { return None; },
        };
        if nanos > 0xffff_ffff {
            return None;
        }
        Some(Timestamp { seconds, nanos: nanos as u32 })
    }

    /// Reads the textual form; anything else is a parse error.
    pub fn from_str(text: &str) -> (t: Result<Timestamp, ErrorKind>)
        ensures
            t == match Timestamp::read(text.spec_bytes()) {
                Some(ts) => Ok::<Timestamp, ErrorKind>(ts),
                None => Err(ErrorKind::Parse),
            },
    {
        match Timestamp::parse_bytes(text.as_bytes()) {
            Some(ts) => Ok(ts),
            None => Err(ErrorKind::Parse),
        }
    }

    /// Appends the textual form to `out`.
    pub fn push_text(&self, out: &mut Vec<u8>)
        ensures
            final(out)@ == old(out)@ + self.text(),
    {
        push_decimal(out, self.seconds);
        out.push(DOT);
        push_decimal(out, self.nanos as u64);
        assert(out@ =~= old(out)@ + self.text());
    }

    /// The textual form.
    pub fn to_string(&self) -> (text: String)
        ensures
            text@ == ascii_chars(self.text()),
    {
        let mut out: Vec<u8> = Vec::new();
        self.push_text(&mut out);
        proof {
            lemma_timestamp_text_round_trip(*self);
            assert(out@ =~= self.text());
        }
        string_from_ascii(out)
    }
}

impl Duration {
    pub fn new(seconds: u64, nanos: u32) -> (d: Duration)
        ensures
            d == (Duration { seconds, nanos }),
    {
        Duration { seconds, nanos }
    }
}

/// Reading the text written for a timestamp gives the timestamp back, and
/// the text is plain ASCII without an `@`.
pub proof fn lemma_timestamp_text_round_trip(t: Timestamp)
    ensures
        Timestamp::read(t.text()) == Some(t),
        is_ascii_bytes(t.text()),
        free_of(t.text(), 64),
{
    let p0 = decimal_text(t.seconds as nat);
    let p1 = decimal_text(t.nanos as nat);
    let parts = seq![p0, p1];
    lemma_decimal_plain(t.seconds as nat, DOT);
    lemma_decimal_plain(t.nanos as nat, DOT);
    lemma_decimal_plain(t.seconds as nat, 64);
    lemma_decimal_plain(t.nanos as nat, 64);
    lemma_decimal_round_trip(t.seconds as nat);
    lemma_decimal_round_trip(t.nanos as nat);
    assert(join(parts, DOT) == t.text()) by {
        reveal_with_fuel(join, 3);
        assert(parts.drop_last() =~= seq![p0]);
    }
    lemma_split_join(parts, DOT);
}

} // verus!
