//! Recovery phrases: entropy spelled as pronounceable words.
//!
//! The wordlist holds the 65536 five-letter words of the shape consonant,
//! vowel, consonant, vowel, consonant over sixteen consonants and four
//! vowels; a word's place in the list is the sixteen bits it stands for.
//! A phrase of this version spells 32 bytes of entropy and two bytes of
//! checksum as seventeen words with single spaces between them.

use vstd::prelude::*;
use crate::backend::{sha256, sha256_digest};
use crate::text::{free_of, join, lemma_split_join, pieces, split, split_bytes};

verus! {

/// Bytes of entropy in a phrase.
pub const ENTROPY_LEN: usize = 32;

/// Words in a phrase.
pub const WORD_COUNT: usize = 17;

/// The separator between words.
pub const SPACE: u8 = 32;

/// The sixteen consonants, in wordlist order: `bdfghjklmnprstvz`.
pub open spec fn consonant(i: int) -> u8 {
    if i == 0 {
        98
    } else if i == 1 {
        100
    } else if i == 2 {
        102
    } else if i == 3 {
        103
    } else if i == 4 {
        104
    } else if i == 5 {
        106
    } else if i == 6 {
        107
    } else if i == 7 {
        108
    } else if i == 8 {
        109
    } else if i == 9 {
        110
    } else if i == 10 {
        112
    } else if i == 11 {
        114
    } else if i == 12 {
        115
    } else if i == 13 {
        116
    } else if i == 14 {
        118
    } else {
        122
    }
}

/// The four vowels, in wordlist order: `aiou`.
pub open spec fn vowel(i: int) -> u8 {
    if i == 0 {
        97
    } else if i == 1 {
        105
    } else if i == 2 {
        111
    } else {
        117
    }
}

/// The place of a consonant among the sixteen, if it is one.
pub open spec fn consonant_index(b: u8) -> Option<int> {
    if exists|i: int| 0 <= i < 16 && consonant(i) == b {
        Some(choose|i: int| 0 <= i < 16 && consonant(i) == b)
    } else {
        None
    }
}

/// The place of a vowel among the four, if it is one.
pub open spec fn vowel_index(b: u8) -> Option<int> {
    if exists|i: int| 0 <= i < 4 && vowel(i) == b {
        Some(choose|i: int| 0 <= i < 4 && vowel(i) == b)
    } else {
        None
    }
}

/// Entry `x` of the wordlist, for `x` below 65536.
pub open spec fn word(x: int) -> Seq<u8> {
    seq![
        consonant(x / 4096),
        vowel(x / 1024 % 4),
        consonant(x / 64 % 16),
        vowel(x / 16 % 4),
        consonant(x % 16),
    ]
}

/// The place of `w` in the wordlist, if it is a word.
pub open spec fn word_value(w: Seq<u8>) -> Option<int> {
    if w.len() == 5 && consonant_index(w[0]) is Some && vowel_index(w[1]) is Some
        && consonant_index(w[2]) is Some && vowel_index(w[3]) is Some && consonant_index(
        w[4],
    ) is Some {
        Some(
            (((consonant_index(w[0]).unwrap() * 4 + vowel_index(w[1]).unwrap()) * 16
                + consonant_index(w[2]).unwrap()) * 4 + vowel_index(w[3]).unwrap()) * 16
                + consonant_index(w[4]).unwrap(),
        )
    } else {
        None
    }
}

/// The letter tables and their lookups are inverse to each other.
pub proof fn lemma_letters(i: int, b: u8)
    ensures
        0 <= i < 16 ==> consonant_index(consonant(i)) == Some(i),
        0 <= i < 4 ==> vowel_index(vowel(i)) == Some(i),
        consonant_index(b) matches Some(k) ==> 0 <= k < 16 && consonant(k) == b,
        vowel_index(b) matches Some(k) ==> 0 <= k < 4 && vowel(k) == b,
        0 <= i < 16 ==> consonant(i) != SPACE && 97 <= consonant(i) <= 122,
        vowel(i) != SPACE && 97 <= vowel(i) <= 122,
{
    if 0 <= i < 16 {
        let k = choose|k: int| 0 <= k < 16 && consonant(k) == consonant(i);
        assert(k == i);
    }
    if 0 <= i < 4 {
        let k = choose|k: int| 0 <= k < 4 && vowel(k) == vowel(i);
        assert(k == i);
    }
}

/// Every word is five lower-case letters, and looking it up gives its
/// place.
pub proof fn lemma_word_round_trip(x: int)
    requires
        0 <= x < 65536,
    ensures
        word(x).len() == 5,
        free_of(word(x), SPACE),
        word_value(word(x)) == Some(x),
{
    let w = word(x);
    lemma_letters(x / 4096, 0);
    lemma_letters(x / 1024 % 4, 0);
    lemma_letters(x / 64 % 16, 0);
    lemma_letters(x / 16 % 4, 0);
    lemma_letters(x % 16, 0);
    assert(x / 16 == (x / 64) * 4 + x / 16 % 4);
    assert(x / 64 == (x / 1024) * 16 + x / 64 % 16);
    assert(x / 1024 == (x / 4096) * 4 + x / 1024 % 4);
    assert(x == (x / 16) * 16 + x % 16);
}

/// Only the words of the list have a place in it.
pub proof fn lemma_word_unique(w: Seq<u8>)
    requires
        word_value(w) is Some,
    ensures
        0 <= word_value(w).unwrap() < 65536,
        word(word_value(w).unwrap()) == w,
{
    lemma_letters(0, w[0]);
    lemma_letters(0, w[1]);
    lemma_letters(0, w[2]);
    lemma_letters(0, w[3]);
    lemma_letters(0, w[4]);
    let c0 = consonant_index(w[0]).unwrap();
    let v1 = vowel_index(w[1]).unwrap();
    let c2 = consonant_index(w[2]).unwrap();
    let v3 = vowel_index(w[3]).unwrap();
    let c4 = consonant_index(w[4]).unwrap();
    let x = (((c0 * 4 + v1) * 16 + c2) * 4 + v3) * 16 + c4;
    assert(x % 16 == c4 && x / 16 == ((c0 * 4 + v1) * 16 + c2) * 4 + v3);
    assert(x / 16 % 4 == v3 && x / 64 == (c0 * 4 + v1) * 16 + c2);
    assert(x / 64 % 16 == c2 && x / 1024 == c0 * 4 + v1);
    assert(x / 1024 % 4 == v1 && x / 4096 == c0);
    assert(word(x) =~= w);
}

fn consonant_letter(i: u16) -> (b: u8)
    requires
        i < 16,
    ensures
        b == consonant(i as int),
{
    match i {
        0 => 98,
        1 => 100,
        2 => 102,
        3 => 103,
        4 => 104,
        5 => 106,
        6 => 107,
        7 => 108,
        8 => 109,
        9 => 110,
        10 => 112,
        11 => 114,
        12 => 115,
        13 => 116,
        14 => 118,
        _ => 122,
    }
}

fn vowel_letter(i: u16) -> (b: u8)
    requires
        i < 4,
    ensures
        b == vowel(i as int),
{
    match i {
        0 => 97,
        1 => 105,
        2 => 111,
        _ => 117,
    }
}

fn consonant_place(b: u8) -> (place: Option<u16>)
    ensures
        place matches Some(i) ==> consonant_index(b) == Some(i as int) && i < 16,
        place is None ==> consonant_index(b) is None,
{
    let place: Option<u16> = match b {
        98 => Some(0),
        100 => Some(1),
        102 => Some(2),
        103 => Some(3),
        104 => Some(4),
        106 => Some(5),
        107 => Some(6),
        108 => Some(7),
        109 => Some(8),
        110 => Some(9),
        112 => Some(10),
        114 => Some(11),
        115 => Some(12),
        116 => Some(13),
        118 => Some(14),
        122 => Some(15),
        _ => None,
    };
    proof {
        match place {
            Some(i) => {
                lemma_letters(i as int, b);
            },
            None => {},
        }
    }
    place
}

fn vowel_place(b: u8) -> (place: Option<u16>)
    ensures
        place matches Some(i) ==> vowel_index(b) == Some(i as int) && i < 4,
        place is None ==> vowel_index(b) is None,
{
    let place: Option<u16> = match b {
        97 => Some(0),
        105 => Some(1),
        111 => Some(2),
        117 => Some(3),
        _ => None,
    };
    proof {
        match place {
            Some(i) => {
                lemma_letters(i as int, b);
            },
            None => {},
        }
    }
    place
}

/// Appends entry `x` of the wordlist to `out`.
pub fn push_word(out: &mut Vec<u8>, x: u16)
    ensures
        final(out)@ == old(out)@ + word(x as int),
{
    out.push(consonant_letter(x / 4096));
    out.push(vowel_letter(x / 1024 % 4));
    out.push(consonant_letter(x / 64 % 16));
    out.push(vowel_letter(x / 16 % 4));
    out.push(consonant_letter(x % 16));
    assert(out@ =~= old(out)@ + word(x as int));
}

/// Looks `w` up in the wordlist.
pub fn word_place(w: &[u8]) -> (place: Option<u16>)
    ensures
        place matches Some(x) ==> word_value(w@) == Some(x as int),
        place is None ==> word_value(w@) is None,
{
    if w.len() != 5 {
        return None;
    }
    let c0 = match consonant_place(w[0]) {
        Some(i) => i,
        None => { return None; },
    };
    let v1 = match vowel_place(w[1]) {
        Some(i) => i,
        None => { return None; },
    };
    let c2 = match consonant_place(w[2]) {
        Some(i) => i,
        None => { return None; },
    };
    let v3 = match vowel_place(w[3]) {
        Some(i) => i,
        None => { return None; },
    };
    let c4 = match consonant_place(w[4]) {
        Some(i) => i,
        None => { return None; },
    };
    Some((((c0 * 4 + v1) * 16 + c2) * 4 + v3) * 16 + c4)
}

/// The two checksum bytes of a phrase: the first two of the SHA-256
/// digest of its entropy.
pub open spec fn checksum(entropy: Seq<u8>) -> Seq<u8> {
    seq![sha256(entropy)[0], sha256(entropy)[1]]
}

/// The bytes that a phrase spells: entropy, then checksum.
pub open spec fn sealed(entropy: Seq<u8>) -> Seq<u8> {
    entropy + checksum(entropy)
}

/// The words that spell `data`, one for each pair of bytes, the first byte
/// of a pair being the high half.
pub open spec fn words(data: Seq<u8>) -> Seq<Seq<u8>> {
    Seq::new(data.len() / 2, |i: int| word(data[2 * i] as int * 256 + data[2 * i + 1] as int))
}

/// The phrase for `entropy`.
pub open spec fn phrase_text(entropy: Seq<u8>) -> Seq<u8> {
    join(words(sealed(entropy)), SPACE)
}

/// The bytes that the words of `text` spell, if `text` is seventeen words
/// of the list with single spaces between them.
pub open spec fn phrase_data(text: Seq<u8>) -> Option<Seq<u8>> {
    let parts = split(text, SPACE);
    if parts.len() == WORD_COUNT && forall|i: int|
        0 <= i < parts.len() ==> word_value(#[trigger] parts[i]) is Some {
        Some(
            Seq::new(
                34,
                |j: int|
                    if j % 2 == 0 {
                        (word_value(parts[j / 2]).unwrap() / 256) as u8
                    } else {
                        (word_value(parts[j / 2]).unwrap() % 256) as u8
                    },
            ),
        )
    } else {
        None
    }
}

/// The entropy that `text` spells, if `text` is a phrase whose checksum
/// matches.
pub open spec fn phrase_entropy(text: Seq<u8>) -> Option<Seq<u8>> {
    match phrase_data(text) {
        Some(data) => if data.skip(32) == checksum(data.take(32)) {
            Some(data.take(32))
        } else {
            None
        },
        None => None,
    }
}

/// Reading the phrase written for some entropy gives that entropy back.
pub proof fn lemma_phrase_round_trip(entropy: Seq<u8>)
    requires
        entropy.len() == ENTROPY_LEN,
    ensures
        phrase_entropy(phrase_text(entropy)) == Some(entropy),
{
    let data = sealed(entropy);
    let ws = words(data);
    assert(ws.len() == 17);
    assert forall|i: int| 0 <= i < ws.len() implies free_of(#[trigger] ws[i], SPACE) by {
        lemma_word_round_trip(data[2 * i] as int * 256 + data[2 * i + 1] as int);
    }
    lemma_split_join(ws, SPACE);
    let text = phrase_text(entropy);
    let parts = split(text, SPACE);
    assert(parts == ws);
    assert forall|i: int| 0 <= i < parts.len() implies word_value(#[trigger] parts[i]) == Some(
        data[2 * i] as int * 256 + data[2 * i + 1] as int,
    ) by {
        lemma_word_round_trip(data[2 * i] as int * 256 + data[2 * i + 1] as int);
    }
    let read = phrase_data(text).unwrap();
    assert forall|j: int| 0 <= j < 34 implies read[j] == data[j] by {
        let i = j / 2;
        assert(word_value(parts[i]) == Some(data[2 * i] as int * 256 + data[2 * i + 1] as int));
    }
    assert(read =~= data);
    assert(data.take(32) =~= entropy);
    assert(data.skip(32) =~= checksum(entropy));
}

/// A text that reads as a phrase is the phrase of the entropy it spells:
/// no second spelling exists.
pub proof fn lemma_phrase_unique(text: Seq<u8>)
    requires
        phrase_entropy(text) is Some,
    ensures
        phrase_entropy(text).unwrap().len() == ENTROPY_LEN,
        phrase_text(phrase_entropy(text).unwrap()) == text,
{
    let parts = split(text, SPACE);
    let data = phrase_data(text).unwrap();
    let entropy = data.take(32);
    assert(sealed(entropy) =~= data) by {
        assert(data =~= data.take(32) + data.skip(32));
    }
    let ws = words(data);
    assert forall|i: int| 0 <= i < 17 implies ws[i] == parts[i] by {
        lemma_word_unique(parts[i]);
        let x = word_value(parts[i]).unwrap();
        assert((2 * i) / 2 == i && (2 * i + 1) / 2 == i);
        assert(data[2 * i] == (x / 256) as u8);
        assert(data[2 * i + 1] == (x % 256) as u8);
        assert(x / 256 * 256 + x % 256 == x);
    }
    assert(ws =~= parts);
    crate::text::lemma_join_split(text, SPACE);
}

/// A phrase is 101 bytes long: seventeen words and sixteen spaces.
pub proof fn lemma_phrase_len(entropy: Seq<u8>)
    requires
        entropy.len() == ENTROPY_LEN,
    ensures
        phrase_text(entropy).len() == 101,
{
    let ws = words(sealed(entropy));
    lemma_join_len(ws, 17);
}

proof fn lemma_join_len(ws: Seq<Seq<u8>>, n: int)
    requires
        1 <= n <= ws.len(),
        forall|i: int| 0 <= i < ws.len() ==> (#[trigger] ws[i]).len() == 5,
    ensures
        join(ws.take(n), SPACE).len() == 6 * n - 1,
        n == ws.len() ==> join(ws, SPACE).len() == 6 * n - 1,
    decreases n,
{
    if n > 1 {
        lemma_join_len(ws, n - 1);
        assert(ws.take(n).drop_last() =~= ws.take(n - 1));
    }
    if n == ws.len() {
        assert(ws.take(n) =~= ws);
    }
}

/// A phrase is plain ASCII.
pub proof fn lemma_phrase_is_ascii(entropy: Seq<u8>)
    requires
        entropy.len() == ENTROPY_LEN,
    ensures
        crate::text::is_ascii_bytes(phrase_text(entropy)),
{
    let ws = words(sealed(entropy));
    lemma_join_ascii(ws, 17);
}

proof fn lemma_join_ascii(ws: Seq<Seq<u8>>, n: int)
    requires
        1 <= n <= ws.len(),
        forall|i: int| 0 <= i < ws.len() ==> crate::text::is_ascii_bytes(#[trigger] ws[i]),
    ensures
        crate::text::is_ascii_bytes(join(ws.take(n), SPACE)),
        n == ws.len() ==> crate::text::is_ascii_bytes(join(ws, SPACE)),
    decreases n,
{
    if n > 1 {
        lemma_join_ascii(ws, n - 1);
        assert(ws.take(n).drop_last() =~= ws.take(n - 1));
        assert(crate::text::is_ascii_bytes(ws[n - 1]));
    } else {
        assert(crate::text::is_ascii_bytes(ws[0]));
    }
    if n == ws.len() {
        assert(ws.take(n) =~= ws);
    }
}

/// Writes the phrase for `entropy`; `None` when `entropy` is not 32 bytes.
pub fn encode(entropy: &[u8]) -> (text: Option<Vec<u8>>)
    ensures
        text matches Some(t) ==> entropy.len() == ENTROPY_LEN && t@ == phrase_text(entropy@),
        text is None ==> entropy.len() != ENTROPY_LEN,
{
    if entropy.len() != ENTROPY_LEN {
        return None;
    }
    let digest = sha256_digest(entropy);
    let mut data: Vec<u8> = Vec::new();
    let mut k: usize = 0;
    while k < ENTROPY_LEN
        invariant
            entropy.len() == ENTROPY_LEN,
            0 <= k <= ENTROPY_LEN,
            data@ == entropy@.take(k as int),
        decreases ENTROPY_LEN - k,
    {
        data.push(entropy[k]);
        assert(data@ =~= entropy@.take(k + 1));
        k = k + 1;
    }
    data.push(digest[0]);
    data.push(digest[1]);
    assert(data@ =~= sealed(entropy@));
    let mut out: Vec<u8> = Vec::new();
    let mut i: usize = 0;
    while i < WORD_COUNT
        invariant
            data.len() == 34,
            0 <= i <= WORD_COUNT,
            out@ == join(words(data@).take(i as int), SPACE),
        decreases WORD_COUNT - i,
    {
        if i > 0 {
            out.push(SPACE);
        }
        let x: u16 = (data[2 * i] as u16) * 256 + (data[2 * i + 1] as u16);
        push_word(&mut out, x);
        proof {
            let ws = words(data@);
            assert(ws.take(i + 1).drop_last() =~= ws.take(i as int));
            assert(ws.take(i + 1).last() == word(x as int));
            if i > 0 {
                assert(out@ =~= join(ws.take(i as int), SPACE) + seq![SPACE] + word(x as int));
            } else {
                assert(join(ws.take(0), SPACE) =~= Seq::<u8>::empty());
                assert(out@ =~= word(x as int));
            }
        }
        i = i + 1;
    }
    assert(words(data@).take(WORD_COUNT as int) =~= words(data@));
    Some(out)
}

/// Reads a phrase: the entropy it spells, or `None` when `text` is not
/// seventeen words of the list or its checksum does not match.
pub fn decode(text: &[u8]) -> (entropy: Option<Vec<u8>>)
    ensures
        entropy matches Some(e) ==> phrase_entropy(text@) == Some(e@),
        entropy is None ==> phrase_entropy(text@) is None,
{
    let parts = split_bytes(text, SPACE);
    if parts.len() != WORD_COUNT {
        assert(pieces(parts@).len() == parts.len());
        return None;
    }
    let ghost cut = split(text@, SPACE);
    assert(cut.len() == 17);
    let mut data: Vec<u8> = Vec::new();
    let mut i: usize = 0;
    while i < WORD_COUNT
        invariant
            parts.len() == WORD_COUNT,
            cut == pieces(parts@),
            cut == split(text@, SPACE),
            0 <= i <= WORD_COUNT,
            data.len() == 2 * i,
            forall|k: int| 0 <= k < i ==> word_value(#[trigger] cut[k]) is Some,
            forall|j: int|
                0 <= j < 2 * i ==> data@[j] == (if j % 2 == 0 {
                    (word_value(cut[j / 2]).unwrap() / 256) as u8
                } else {
                    (word_value(cut[j / 2]).unwrap() % 256) as u8
                }),
        decreases WORD_COUNT - i,
    {
        assert(cut[i as int] == parts@[i as int]@);
        match word_place(parts[i].as_slice()) {
            Some(x) => {
                data.push((x / 256) as u8);
                data.push((x % 256) as u8);
            },
            None => {
                assert(word_value(cut[i as int]) is None);
                return None;
            },
        }
        i = i + 1;
    }
    assert(data@ =~= phrase_data(text@).unwrap());
    let mut entropy: Vec<u8> = Vec::new();
    let mut k: usize = 0;
    while k < ENTROPY_LEN
        invariant
            data.len() == 34,
            0 <= k <= ENTROPY_LEN,
            entropy@ == data@.take(k as int),
        decreases ENTROPY_LEN - k,
    {
        entropy.push(data[k]);
        assert(entropy@ =~= data@.take(k + 1));
        k = k + 1;
    }
    let digest = sha256_digest(entropy.as_slice());
    if data[32] == digest[0] && data[33] == digest[1] {
        assert(data@.skip(32) =~= checksum(entropy@));
        Some(entropy)
    } else {
        assert(data@.skip(32)[0] == data@[32] && data@.skip(32)[1] == data@[33]);
        None
    }
}

} // verus!
