//! UTF-16, as the Windows API wants and gives it.

use vstd::prelude::*;
use vstd::utf8::is_scalar;

use crate::text::chars_of;

verus! {

/// `char::from_u32`: the character with that number, if there is one.
pub assume_specification[ char::from_u32 ](n: u32) -> (r: Option<char>)
    ensures
        r is Some <==> is_scalar(n),
        r matches Some(c) ==> c as u32 == n,
;

/// The UTF-16 units of a character: one, or a surrogate pair.
pub open spec fn units_of(c: char) -> Seq<u16> {
    let n = c as u32;
    if n < 0x10000 {
        seq![n as u16]
    } else {
        seq![(0xD800 + (n - 0x10000) / 0x400) as u16, (0xDC00 + (n - 0x10000) % 0x400) as u16]
    }
}

/// The UTF-16 units of a text.
pub open spec fn encode_utf16(s: Seq<char>) -> Seq<u16>
    decreases s.len(),
{
    if s.len() == 0 {
        seq![]
    } else {
        encode_utf16(s.drop_last()) + units_of(s.last())
    }
}

/// The first unit of a surrogate pair.
pub open spec fn is_high(u: u16) -> bool {
    0xD800 <= u <= 0xDBFF
}

/// The second unit of a surrogate pair.
pub open spec fn is_low(u: u16) -> bool {
    0xDC00 <= u <= 0xDFFF
}

/// The character of a surrogate pair.
pub open spec fn pair_char(high: u16, low: u16) -> char {
    (0x10000 + (high - 0xD800) * 0x400 + (low - 0xDC00)) as char
}

/// The text of UTF-16 units, with U+FFFD for every surrogate that is not part of
/// a pair.
pub open spec fn decode_utf16(units: Seq<u16>) -> Seq<char>
    decreases units.len(),
{
    if units.len() == 0 {
        seq![]
    } else if !is_high(units[0]) && !is_low(units[0]) {
        seq![units[0] as char] + decode_utf16(units.skip(1))
    } else if is_high(units[0]) && units.len() > 1 && is_low(units[1]) {
        seq![pair_char(units[0], units[1])] + decode_utf16(units.skip(2))
    } else {
        seq!['\u{FFFD}'] + decode_utf16(units.skip(1))
    }
}

/// Encodes a text as UTF-16.
pub fn utf16_units(s: &str) -> (r: Vec<u16>)
    ensures
        r@ == encode_utf16(s@),
{
    let chars = chars_of(s);
    let mut out: Vec<u16> = Vec::new();
    let mut i: usize = 0;
    assert(encode_utf16(chars@.take(0)) =~= seq![]);
    while i < chars.len()
        invariant
            chars@ == s@,
            i <= chars@.len(),
            out@ == encode_utf16(chars@.take(i as int)),
        decreases chars@.len() - i,
    {
        let ghost was = out@;
        let c: char = chars[i];
        assert(chars@.take(i + 1).drop_last() =~= chars@.take(i as int));
        let n: u32 = c as u32;
        if n < 0x10000 {
            out.push(n as u16);
        } else {
            out.push((0xD800 + (n - 0x10000) / 0x400) as u16);
            out.push((0xDC00 + (n - 0x10000) % 0x400) as u16);
        }
        assert(out@ =~= was + units_of(c));
        i = i + 1;
    }
    assert(chars@.take(chars@.len() as int) =~= chars@);
    out
}

fn scalar(n: u32) -> (c: char)
    requires
        is_scalar(n),
    ensures
        c as u32 == n,
{
    match char::from_u32(n) {
        Some(c) => c,
        None => '\u{FFFD}',
    }
}

/// Decodes the UTF-16 units up to `end`.
pub fn utf16_text(units: &[u16], end: usize) -> (r: String)
    requires
        end <= units@.len(),
    ensures
        r@ == decode_utf16(units@.take(end as int)),
{
    let ghost all = units@.take(end as int);
    let mut out = String::new();
    let mut i: usize = 0;
    assert(all.skip(0) =~= all);
    assert(out@ + decode_utf16(all) =~= decode_utf16(all));
    while i < end
        invariant
            i <= end <= units@.len(),
            all == units@.take(end as int),
            out@ + decode_utf16(all.skip(i as int)) == decode_utf16(all),
        decreases end - i,
    {
        let ghost was = out@;
        let ghost rest = all.skip(i as int);
        let u: u16 = units[i];
        assert(rest[0] == u);
        if u < 0xD800 || u > 0xDFFF {
            out.push(scalar(u as u32));
            i = i + 1;
            assert(rest.skip(1) =~= all.skip(i as int));
            assert(was + decode_utf16(rest) =~= out@ + decode_utf16(rest.skip(1)));
        } else if u <= 0xDBFF && end - i > 1 && 0xDC00 <= units[i + 1] && units[i + 1] <= 0xDFFF {
            let low: u16 = units[i + 1];
            assert(rest[1] == low);
            out.push(scalar(0x10000 + (u as u32 - 0xD800) * 0x400 + (low as u32 - 0xDC00)));
            i = i + 2;
            assert(rest.skip(2) =~= all.skip(i as int));
            assert(was + decode_utf16(rest) =~= out@ + decode_utf16(rest.skip(2)));
        } else {
            out.push('\u{FFFD}');
            i = i + 1;
            assert(rest.skip(1) =~= all.skip(i as int));
            assert(was + decode_utf16(rest) =~= out@ + decode_utf16(rest.skip(1)));
        }
    }
    assert(all.skip(end as int) =~= seq![]);
    assert(out@ + decode_utf16(all.skip(end as int)) =~= out@);
    out
}

proof fn lemma_encode_front(s: Seq<char>)
    requires
        s.len() > 0,
    ensures
        encode_utf16(s) == units_of(s[0]) + encode_utf16(s.skip(1)),
    decreases s.len(),
{
    if s.len() == 1 {
        assert(s.drop_last() =~= seq![]);
        assert(s.skip(1) =~= seq![]);
        assert(encode_utf16(s) =~= units_of(s[0]) + encode_utf16(s.skip(1)));
    } else {
        lemma_encode_front(s.drop_last());
        assert(s.drop_last().skip(1) =~= s.skip(1).drop_last());
        assert(encode_utf16(s) =~= units_of(s[0]) + encode_utf16(s.skip(1)));
    }
}

proof fn lemma_units_decode(c: char, rest: Seq<u16>)
    ensures
        decode_utf16(units_of(c) + rest) == seq![c] + decode_utf16(rest),
        c != '\0' ==> forall|i: int| 0 <= i < units_of(c).len() ==> #[trigger] units_of(c)[i] != 0,
{
    let n = c as u32;
    let units = units_of(c) + rest;
    assert(is_scalar(n));
    assert(n as char == c);
    if n < 0x10000 {
        assert(units.skip(1) =~= rest);
        assert(units[0] as char == c);
    } else {
        let high = (0xD800 + (n - 0x10000) / 0x400) as u16;
        let low = (0xDC00 + (n - 0x10000) % 0x400) as u16;
        assert(units[0] == high && units[1] == low);
        assert(is_high(high) && is_low(low));
        assert(units.skip(2) =~= rest);
        assert(0x10000 + (high - 0xD800) * 0x400 + (low - 0xDC00) == n);
        assert(pair_char(high, low) == c);
    }
}

/// A text survives being encoded and decoded.
pub proof fn utf16_round_trips(s: Seq<char>)
    ensures
        decode_utf16(encode_utf16(s)) == s,
    decreases s.len(),
{
    if s.len() == 0 {
        assert(decode_utf16(encode_utf16(s)) =~= s);
    } else {
        lemma_encode_front(s);
        utf16_round_trips(s.skip(1));
        lemma_units_decode(s[0], encode_utf16(s.skip(1)));
        assert(seq![s[0]] + s.skip(1) =~= s);
    }
}

/// A text without NUL has no NUL unit.
pub proof fn lemma_no_nul_unit(s: Seq<char>)
    requires
        forall|i: int| 0 <= i < s.len() ==> s[i] != '\0',
    ensures
        forall|i: int| 0 <= i < encode_utf16(s).len() ==> #[trigger] encode_utf16(s)[i] != 0,
    decreases s.len(),
{
    if s.len() > 0 {
        lemma_no_nul_unit(s.drop_last());
        lemma_units_decode(s[s.len() - 1], seq![]);
        let before = encode_utf16(s.drop_last());
        assert forall|i: int| 0 <= i < encode_utf16(s).len() implies #[trigger] encode_utf16(s)[i]
            != 0 by {
            if i < before.len() {
                assert(encode_utf16(s)[i] == before[i]);
            } else {
                assert(encode_utf16(s)[i] == units_of(s.last())[i - before.len()]);
            }
        }
    }
}

/// A character is one unit, or the high and the low half of what it has above the
/// first 65536.
pub proof fn characters_are_units(c: char)
    ensures
        (c as u32) < 0x10000 ==> units_of(c).len() == 1 && units_of(c)[0] == c as u32,
        (c as u32) >= 0x10000 ==> units_of(c).len() == 2 && 0xD800 <= units_of(c)[0] <= 0xDBFF
            && 0xDC00 <= units_of(c)[1] <= 0xDFFF && (units_of(c)[0] - 0xD800) * 0x400 + (
        units_of(c)[1] - 0xDC00) + 0x10000 == c as u32,
{
}

/// A text is encoded character by character, in order.
pub proof fn texts_are_encoded_in_order(s: Seq<char>)
    ensures
        encode_utf16(s) == s.map_values(|c: char| units_of(c)).flatten_alt(),
    decreases s.len(),
{
    let units = s.map_values(|c: char| units_of(c));
    if s.len() > 0 {
        texts_are_encoded_in_order(s.drop_last());
        assert(units.drop_last() =~= s.drop_last().map_values(|c: char| units_of(c)));
    } else {
        assert(units.flatten_alt() =~= seq![]);
    }
}

/// A half without its other half is decoded as the replacement character, and
/// what follows it as if it stood alone.
pub proof fn lone_halves_are_replaced(units: Seq<u16>)
    requires
        units.len() > 0,
        0xD800 <= units[0] <= 0xDFFF,
        units[0] >= 0xDC00 || units.len() == 1 || !(0xDC00 <= units[1] <= 0xDFFF),
    ensures
        decode_utf16(units).len() > 0,
        decode_utf16(units)[0] == '\u{FFFD}',
        decode_utf16(units).drop_first() == decode_utf16(units.skip(1)),
{
    assert(decode_utf16(units).drop_first() =~= decode_utf16(units.skip(1)));
}

} // verus!
