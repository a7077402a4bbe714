//! Fresh record identifiers: random (version 4) UUIDs, their text, and the
//! identifier that Jot gives a note's reminder.

use vstd::prelude::*;
use vstd::string::*;
use crate::text::{ascii_upper, ascii_upper_char, to_ascii_upper};

verus! {

/// The lower-case hexadecimal digit for a value from 0 to 15.
pub open spec fn hex_lower(n: int) -> char {
    if n < 10 {
        (n + 48) as char
    } else {
        (n + 87) as char
    }
}

/// Each byte as two lower-case hexadecimal digits, high half first.
pub open spec fn hex_pairs(b: Seq<u8>) -> Seq<char>
    decreases b.len(),
{
    if b.len() == 0 {
        Seq::empty()
    } else {
        seq![hex_lower((b[0] / 16) as int), hex_lower((b[0] % 16) as int)] + hex_pairs(b.drop_first())
    }
}

/// The hyphenated form of a UUID's sixteen bytes: groups of 8, 4, 4, 4 and
/// 12 lower-case hexadecimal digits joined by `-`.
pub open spec fn hyphenated(b: Seq<u8>) -> Seq<char> {
    hex_pairs(b.subrange(0, 4)) + seq!['-'] + hex_pairs(b.subrange(4, 6)) + seq!['-']
        + hex_pairs(b.subrange(6, 8)) + seq!['-'] + hex_pairs(b.subrange(8, 10)) + seq!['-']
        + hex_pairs(b.subrange(10, 16))
}

/// The bytes of a random (version 4, RFC 4122 variant) UUID: the high half
/// of byte 6 is 4 and the two top bits of byte 8 are `10`.
pub open spec fn is_random_uuid(b: Seq<u8>) -> bool {
    &&& b.len() == 16
    &&& b[6] / 16 == 4
    &&& b[8] / 64 == 2
}

/// The bytes of a fresh random UUID.
///
/// Trusted: `uuid::Uuid::new_v4`, whose source fills all bits from the
/// random number generator and then sets the version to 4 and the variant
/// to RFC 4122; nothing more is claimed of the bytes.
#[verifier::external_body]
pub(crate) fn random_uuid() -> (b: [u8; 16])
    ensures
        is_random_uuid(b@),
{
    *uuid::Uuid::new_v4().as_bytes()
}

/// The text of the UUID with the given bytes.
///
/// Trusted: `uuid::Uuid::from_bytes` followed by its `to_string`, whose
/// source renders the bytes in the hyphenated lower-case form.
#[verifier::external_body]
fn uuid_text(b: [u8; 16]) -> (s: String)
    ensures
        s@ == hyphenated(b@),
{
    uuid::Uuid::from_bytes(b).to_string()
}

/// The reminder identifier that Jot derives from a UUID:
/// `note_reminder_` followed by the UUID's text in upper case.
pub open spec fn reminder_identifier_text(b: Seq<u8>) -> Seq<char> {
    "note_reminder_"@ + ascii_upper(hyphenated(b))
}

/// The reminder identifier for the UUID with the given bytes.
pub fn reminder_identifier_for(b: [u8; 16]) -> (r: String)
    ensures
        r@ == reminder_identifier_text(b@),
{
    let t = uuid_text(b);
    let u = to_ascii_upper(t.as_str());
    let mut r = String::from_str("note_reminder_");
    r.append(u.as_str());
    r
}

/// A reminder identifier for a fresh random UUID, as Jot writes one when a
/// reminder is set in the app.
pub fn new_reminder_identifier() -> (r: String)
    ensures
        exists|b: Seq<u8>| is_random_uuid(b) && r@ == reminder_identifier_text(b),
{
    let b = random_uuid();
    let r = reminder_identifier_for(b);
    assert(is_random_uuid(b@) && r@ == reminder_identifier_text(b@));
    r
}

/// A character of an upper-case UUID text: a digit, `A` to `F`, or `-`.
pub open spec fn is_upper_uuid_char(c: char) -> bool {
    ('0' <= c && c <= '9') || ('A' <= c && c <= 'F') || c == '-'
}

proof fn lemma_hex_pairs(b: Seq<u8>)
    ensures
        hex_pairs(b).len() == 2 * b.len(),
        forall|k: int|
            0 <= k < b.len() ==> hex_pairs(b)[2 * k] == hex_lower((b[k] / 16) as int) && hex_pairs(
                b,
            )[2 * k + 1] == hex_lower((b[k] % 16) as int),
    decreases b.len(),
{
    if b.len() > 0 {
        let rest = b.drop_first();
        lemma_hex_pairs(rest);
        assert forall|k: int| 0 <= k < b.len() implies hex_pairs(b)[2 * k] == hex_lower(
            (b[k] / 16) as int,
        ) && hex_pairs(b)[2 * k + 1] == hex_lower((b[k] % 16) as int) by {
            if k > 0 {
                assert(b[k] == rest[k - 1]);
                assert(hex_pairs(b)[2 * k] == hex_pairs(rest)[2 * (k - 1)]);
                assert(hex_pairs(b)[2 * k + 1] == hex_pairs(rest)[2 * (k - 1) + 1]);
            }
        }
    }
}

proof fn lemma_hex_upper(n: int)
    requires
        0 <= n < 16,
    ensures
        is_upper_uuid_char(ascii_upper_char(hex_lower(n))),
{
}

/// Where byte `k` of a UUID stands in its hyphenated text: two characters
/// per byte, plus one for each hyphen before it.
pub open spec fn byte_position(k: int) -> int {
    2 * k + (if k >= 4 { 1int } else { 0int }) + (if k >= 6 { 1int } else { 0int }) + (if k
        >= 8 {
        1int
    } else {
        0int
    }) + (if k >= 10 {
        1int
    } else {
        0int
    })
}

/// The hyphenated text shows each byte, in order, as two lower-case
/// hexadecimal digits (high half first) at its position, with hyphens after
/// the 4th, 6th, 8th and 10th bytes.
pub proof fn law_hyphenated_shows_each_byte(b: Seq<u8>)
    requires
        b.len() == 16,
    ensures
        hyphenated(b).len() == 36,
        hyphenated(b)[8] == '-' && hyphenated(b)[13] == '-' && hyphenated(b)[18] == '-'
            && hyphenated(b)[23] == '-',
        forall|k: int|
            0 <= k < 16 ==> hyphenated(b)[#[trigger] byte_position(k)] == hex_lower(
                (b[k] / 16) as int,
            ) && hyphenated(b)[byte_position(k) + 1] == hex_lower((b[k] % 16) as int),
{
    let g0 = b.subrange(0, 4);
    let g1 = b.subrange(4, 6);
    let g2 = b.subrange(6, 8);
    let g3 = b.subrange(8, 10);
    let g4 = b.subrange(10, 16);
    lemma_hex_pairs(g0);
    lemma_hex_pairs(g1);
    lemma_hex_pairs(g2);
    lemma_hex_pairs(g3);
    lemma_hex_pairs(g4);
    let h = hyphenated(b);
    assert forall|k: int| 0 <= k < 16 implies h[#[trigger] byte_position(k)] == hex_lower(
        (b[k] / 16) as int,
    ) && h[byte_position(k) + 1] == hex_lower((b[k] % 16) as int) by {
        if k < 4 {
            assert(g0[k] == b[k]);
            assert(h[2 * k] == hex_pairs(g0)[2 * k]);
            assert(h[2 * k + 1] == hex_pairs(g0)[2 * k + 1]);
        } else if k < 6 {
            assert(g1[k - 4] == b[k]);
            assert(h[2 * k + 1] == hex_pairs(g1)[2 * (k - 4)]);
            assert(h[2 * k + 2] == hex_pairs(g1)[2 * (k - 4) + 1]);
        } else if k < 8 {
            assert(g2[k - 6] == b[k]);
            assert(h[2 * k + 2] == hex_pairs(g2)[2 * (k - 6)]);
            assert(h[2 * k + 3] == hex_pairs(g2)[2 * (k - 6) + 1]);
        } else if k < 10 {
            assert(g3[k - 8] == b[k]);
            assert(h[2 * k + 3] == hex_pairs(g3)[2 * (k - 8)]);
            assert(h[2 * k + 4] == hex_pairs(g3)[2 * (k - 8) + 1]);
        } else {
            assert(g4[k - 10] == b[k]);
            assert(h[2 * k + 4] == hex_pairs(g4)[2 * (k - 10)]);
            assert(h[2 * k + 5] == hex_pairs(g4)[2 * (k - 10) + 1]);
        }
    }
}

/// A reminder identifier is `note_reminder_` followed by the UUID's
/// hyphenated text with its letters upper-cased, character by character.
pub proof fn law_reminder_identifier_is_upper_uuid(b: Seq<u8>)
    requires
        b.len() == 16,
    ensures
        reminder_identifier_text(b).len() == 50,
        reminder_identifier_text(b).subrange(0, 14) == "note_reminder_"@,
        forall|i: int|
            0 <= i < 36 ==> #[trigger] reminder_identifier_text(b)[14 + i] == ascii_upper_char(
                hyphenated(b)[i],
            ),
{
    reveal_strlit("note_reminder_");
    law_hyphenated_shows_each_byte(b);
    let r = reminder_identifier_text(b);
    assert(r.subrange(0, 14) =~= "note_reminder_"@);
}

/// Every reminder identifier has Jot's shape: `note_reminder_` followed by
/// thirty-six characters, the text of an upper-case UUID, with its hyphens
/// in their places and the version digit `4` where a random UUID has it.
pub proof fn law_reminder_identifier_shape(b: Seq<u8>)
    requires
        is_random_uuid(b),
    ensures
        reminder_identifier_text(b).len() == 50,
        reminder_identifier_text(b).subrange(0, 14) == "note_reminder_"@,
        forall|i: int|
            14 <= i < 50 ==> is_upper_uuid_char(#[trigger] reminder_identifier_text(b)[i]),
        reminder_identifier_text(b)[22] == '-',
        reminder_identifier_text(b)[27] == '-',
        reminder_identifier_text(b)[32] == '-',
        reminder_identifier_text(b)[37] == '-',
        reminder_identifier_text(b)[28] == '4',
{
    reveal_strlit("note_reminder_");
    let g0 = b.subrange(0, 4);
    let g1 = b.subrange(4, 6);
    let g2 = b.subrange(6, 8);
    let g3 = b.subrange(8, 10);
    let g4 = b.subrange(10, 16);
    lemma_hex_pairs(g0);
    lemma_hex_pairs(g1);
    lemma_hex_pairs(g2);
    lemma_hex_pairs(g3);
    lemma_hex_pairs(g4);
    let h = hyphenated(b);
    assert(h.len() == 36);
    assert(h[8] == '-' && h[13] == '-' && h[18] == '-' && h[23] == '-');
    assert(g2[0] == b[6]);
    assert(h[14] == hex_pairs(g2)[0]);
    assert(h[14] == hex_lower(4));
    assert forall|i: int| 0 <= i < 36 implies is_upper_uuid_char(ascii_upper_char(h[i])) by {
        if i < 8 {
            let k = i / 2;
            assert(h[i] == hex_pairs(g0)[i]);
            if i % 2 == 0 {
                assert(i == 2 * k);
                lemma_hex_upper((g0[k] / 16) as int);
            } else {
                assert(i == 2 * k + 1);
                lemma_hex_upper((g0[k] % 16) as int);
            }
        } else if 9 <= i < 13 {
            let j = i - 9;
            let k = j / 2;
            assert(h[i] == hex_pairs(g1)[j]);
            if j % 2 == 0 {
                assert(j == 2 * k);
                lemma_hex_upper((g1[k] / 16) as int);
            } else {
                assert(j == 2 * k + 1);
                lemma_hex_upper((g1[k] % 16) as int);
            }
        } else if 14 <= i < 18 {
            let j = i - 14;
            let k = j / 2;
            assert(h[i] == hex_pairs(g2)[j]);
            if j % 2 == 0 {
                assert(j == 2 * k);
                lemma_hex_upper((g2[k] / 16) as int);
            } else {
                assert(j == 2 * k + 1);
                lemma_hex_upper((g2[k] % 16) as int);
            }
        } else if 19 <= i < 23 {
            let j = i - 19;
            let k = j / 2;
            assert(h[i] == hex_pairs(g3)[j]);
            if j % 2 == 0 {
                assert(j == 2 * k);
                lemma_hex_upper((g3[k] / 16) as int);
            } else {
                assert(j == 2 * k + 1);
                lemma_hex_upper((g3[k] % 16) as int);
            }
        } else if 24 <= i {
            let j = i - 24;
            let k = j / 2;
            assert(h[i] == hex_pairs(g4)[j]);
            if j % 2 == 0 {
                assert(j == 2 * k);
                lemma_hex_upper((g4[k] / 16) as int);
            } else {
                assert(j == 2 * k + 1);
                lemma_hex_upper((g4[k] % 16) as int);
            }
        }
    }
    let r = reminder_identifier_text(b);
    assert(r.subrange(0, 14) =~= "note_reminder_"@);
}

} // verus!
