//! Text that arrives as UTF-16 code units, as the window system hands it
//! out: what the units stand for, how many units a text takes, and the
//! text of an entry field.

use crate::text::{lemma_trim_end, lemma_trim_start, lemma_trimmed_idempotent, trim, trim_start,
    trimmed};
use vstd::prelude::*;
use vstd::slice::slice_subrange;

verus! {

/// A code unit that opens a surrogate pair.
pub open spec fn is_high_surrogate(u: u16) -> bool {
    0xD800 <= u <= 0xDBFF
}

/// A code unit that closes a surrogate pair.
pub open spec fn is_low_surrogate(u: u16) -> bool {
    0xDC00 <= u <= 0xDFFF
}

/// The character that the surrogate pair `high`, `low` encodes.
pub open spec fn paired(high: u16, low: u16) -> char
    recommends
        is_high_surrogate(high),
        is_low_surrogate(low),
{
    (0x10000 + (high - 0xD800) * 0x400 + (low - 0xDC00)) as char
}

/// The text that UTF-16 code units stand for. A unit outside the surrogate
/// range is its own character, a high surrogate directly followed by a low
/// one is the character of the pair, and every other surrogate is U+FFFD.
pub open spec fn utf16_lossy(units: Seq<u16>) -> Seq<char>
    decreases units.len(),
{
    if units.len() == 0 {
        Seq::empty()
    } else if is_high_surrogate(units[0]) && units.len() >= 2 && is_low_surrogate(units[1]) {
        seq![paired(units[0], units[1])] + utf16_lossy(units.skip(2))
    } else if is_high_surrogate(units[0]) || is_low_surrogate(units[0]) {
        seq!['\u{FFFD}'] + utf16_lossy(units.skip(1))
    } else {
        seq![units[0] as char] + utf16_lossy(units.skip(1))
    }
}

/// The number of code units that encode the character `c`.
pub open spec fn units_of(c: char) -> nat {
    if c as u32 >= 0x10000 {
        2
    } else {
        1
    }
}

/// The number of UTF-16 code units that encode `s`.
pub open spec fn utf16_len(s: Seq<char>) -> nat
    decreases s.len(),
{
    if s.len() == 0 {
        0
    } else {
        units_of(s.first()) + utf16_len(s.drop_first())
    }
}

/// What a buffer with room for `limit` code units holds of `units`: all of
/// them, or the first `limit`.
pub open spec fn captured(units: Seq<u16>, limit: nat) -> Seq<u16> {
    if units.len() <= limit {
        units
    } else {
        units.take(limit as int)
    }
}

/// The text of an entry field: the units that fit the buffer, decoded and
/// trimmed.
pub open spec fn field_text(units: Seq<u16>, limit: nat) -> Seq<char> {
    trimmed(utf16_lossy(captured(units, limit)))
}

/// `String::from_utf16_lossy`: decodes UTF-16 and puts U+FFFD in place of
/// each surrogate that has no partner. The contract states the decoding in
/// full, as `utf16_lossy`.
#[verifier::external_body]
pub(crate) fn decode_utf16(units: &[u16]) -> (text: String)
    ensures
        text@ == utf16_lossy(units@),
{
    String::from_utf16_lossy(units)
}

/// Reads the text of an entry field from the code units of its content.
/// Units beyond `limit` are left out, as by a buffer of that size.
pub fn read_field(units: &[u16], limit: usize) -> (text: String)
    ensures
        text@ == field_text(units@, limit as nat),
        utf16_len(text@) <= limit,
        trimmed(text@) == text@,
{
    let kept = if units.len() <= limit {
        units
    } else {
        slice_subrange(units, 0, limit)
    };
    assert(kept@ =~= captured(units@, limit as nat));
    let decoded = decode_utf16(kept);
    proof {
        lemma_field_text(units@, limit as nat);
    }
    trim(decoded.as_str())
}

/// The code units of two texts add up when the texts are joined.
pub proof fn lemma_utf16_len_concat(a: Seq<char>, b: Seq<char>)
    ensures
        utf16_len(a + b) == utf16_len(a) + utf16_len(b),
    decreases a.len(),
{
    if a.len() == 0 {
        assert(a + b =~= b);
    } else {
        assert((a + b).drop_first() =~= a.drop_first() + b);
        lemma_utf16_len_concat(a.drop_first(), b);
    }
}

/// The number of code units of a text that starts with `c`.
proof fn lemma_utf16_len_cons(c: char, rest: Seq<char>)
    ensures
        utf16_len(seq![c] + rest) == units_of(c) + utf16_len(rest),
{
    let s = seq![c] + rest;
    assert(s.first() == c);
    assert(s.drop_first() =~= rest);
}

/// Lossy decoding keeps the number of code units: each unit, or pair of
/// units, becomes a character that takes as many units to encode.
pub proof fn lemma_utf16_lossy_len(units: Seq<u16>)
    ensures
        utf16_len(utf16_lossy(units)) == units.len(),
    decreases units.len(),
{
    if units.len() == 0 {
    } else if is_high_surrogate(units[0]) && units.len() >= 2 && is_low_surrogate(units[1]) {
        let c = paired(units[0], units[1]);
        lemma_utf16_lossy_len(units.skip(2));
        lemma_utf16_len_cons(c, utf16_lossy(units.skip(2)));
        assert(c as u32 >= 0x10000);
    } else if is_high_surrogate(units[0]) || is_low_surrogate(units[0]) {
        lemma_utf16_lossy_len(units.skip(1));
        lemma_utf16_len_cons('\u{FFFD}', utf16_lossy(units.skip(1)));
    } else {
        let c = units[0] as char;
        lemma_utf16_lossy_len(units.skip(1));
        lemma_utf16_len_cons(c, utf16_lossy(units.skip(1)));
        assert((c as u32) < 0x10000);
    }
}

/// A part of a text takes no more code units than the whole.
pub proof fn lemma_utf16_len_subrange(s: Seq<char>, from: int, to: int)
    requires
        0 <= from <= to <= s.len(),
    ensures
        utf16_len(s.subrange(from, to)) <= utf16_len(s),
{
    let head = s.subrange(0, from);
    let mid = s.subrange(from, to);
    let tail = s.subrange(to, s.len() as int);
    assert(s =~= head + (mid + tail));
    lemma_utf16_len_concat(head, mid + tail);
    lemma_utf16_len_concat(mid, tail);
}

/// Trimming never adds code units.
pub proof fn lemma_trimmed_utf16_len(s: Seq<char>)
    ensures
        utf16_len(trimmed(s)) <= utf16_len(s),
{
    let a = lemma_trim_start(s);
    let b = lemma_trim_end(trim_start(s));
    lemma_utf16_len_subrange(s, a, s.len() as int);
    lemma_utf16_len_subrange(trim_start(s), 0, b);
}

/// Field text is trimmed and takes at most `limit` code units.
pub proof fn lemma_field_text(units: Seq<u16>, limit: nat)
    ensures
        utf16_len(field_text(units, limit)) <= limit,
        trimmed(field_text(units, limit)) == field_text(units, limit),
{
    let kept = captured(units, limit);
    lemma_utf16_lossy_len(kept);
    lemma_trimmed_utf16_len(utf16_lossy(kept));
    lemma_trimmed_idempotent(utf16_lossy(kept));
}

/// The code units that stand for a text without surrogates and without
/// characters beyond them: one unit for each character, with its number.
pub open spec fn plain_units(s: Seq<char>) -> Seq<u16> {
    Seq::new(s.len(), |i: int| s[i] as u16)
}

/// Every character of `s` lies below the surrogate range.
pub open spec fn is_plain(s: Seq<char>) -> bool {
    forall|i: int| 0 <= i < s.len() ==> ((#[trigger] s[i]) as u32) < 0xD800
}

/// Units that are all below the surrogate range stand for themselves:
/// as many characters as units, each with its unit's number.
pub proof fn lemma_utf16_lossy_plain(units: Seq<u16>)
    requires
        forall|i: int| 0 <= i < units.len() ==> units[i] < 0xD800,
    ensures
        utf16_lossy(units).len() == units.len(),
        forall|i: int| 0 <= i < units.len() ==> utf16_lossy(units)[i] as u32 == units[i],
    decreases units.len(),
{
    if units.len() > 0 {
        let rest = units.skip(1);
        lemma_utf16_lossy_plain(rest);
        assert forall|i: int| 0 <= i < units.len() implies utf16_lossy(units)[i] as u32
            == units[i] by {
            if i > 0 {
                assert(utf16_lossy(units)[i] == utf16_lossy(rest)[i - 1]);
                assert(rest[i - 1] == units[i]);
            }
        }
    }
}

/// A character below the surrogate range and its code unit are the same
/// number.
proof fn lemma_plain_char(c: char)
    requires
        (c as u32) < 0xD800,
    ensures
        (c as u16) < 0xD800,
        (c as u16) as u32 == c as u32,
        (c as u16) as char == c,
{
}

/// Characters with the same number are the same character.
proof fn lemma_same_number(a: char, b: char)
    requires
        a as u32 == b as u32,
    ensures
        a == b,
{
}

/// Only one series of code units stands for a text whose characters all
/// lie below the surrogate range: the text's own characters, one unit
/// each.
pub proof fn lemma_utf16_lossy_exact(units: Seq<u16>, s: Seq<char>)
    requires
        is_plain(s),
    ensures
        utf16_lossy(units) == s <==> units == plain_units(s),
    decreases units.len(),
{
    if units == plain_units(s) {
        assert forall|i: int| 0 <= i < units.len() implies units[i] < 0xD800 by {
            lemma_plain_char(s[i]);
        }
        lemma_utf16_lossy_plain(units);
        assert forall|i: int| 0 <= i < s.len() implies utf16_lossy(units)[i] == s[i] by {
            lemma_plain_char(s[i]);
            assert(units[i] == s[i] as u16);
            assert(utf16_lossy(units)[i] as u32 == units[i]);
            lemma_same_number(utf16_lossy(units)[i], s[i]);
        }
        assert(utf16_lossy(units) =~= s);
    }
    if utf16_lossy(units) == s {
        if units.len() == 0 {
            assert(units =~= plain_units(s));
        } else if is_high_surrogate(units[0]) && units.len() >= 2 && is_low_surrogate(units[1]) {
            assert(s[0] == paired(units[0], units[1]));
            assert(s[0] as u32 >= 0x10000);
        } else if is_high_surrogate(units[0]) || is_low_surrogate(units[0]) {
            assert(s[0] == '\u{FFFD}');
        } else {
            let rest = units.skip(1);
            let tail = s.skip(1);
            assert(s[0] == units[0] as char);
            assert(utf16_lossy(rest) =~= tail);
            assert forall|i: int| 0 <= i < tail.len() implies ((#[trigger] tail[i]) as u32)
                < 0xD800 by {
                assert(tail[i] == s[i + 1]);
            }
            lemma_utf16_lossy_exact(rest, tail);
            assert forall|i: int| 0 <= i < units.len() implies units[i] == plain_units(s)[i] by {
                if i > 0 {
                    assert(units[i] == rest[i - 1]);
                    assert(plain_units(tail)[i - 1] == tail[i - 1] as u16);
                    assert(tail[i - 1] == s[i]);
                }
            }
            assert(units =~= plain_units(s));
        }
    }
}

} // verus!
