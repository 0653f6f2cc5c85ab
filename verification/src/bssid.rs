//! BSSIDs as text.

use vstd::prelude::*;

use crate::text::{
    hex_digit,
    hex_digit_value,
    hex_octet,
    hex_text,
    hex_value,
    octets_are_small_numbers,
    parse_hex_octet,
    part_views,
    split,
    split_text,
};

verus! {

/// Six octets in hexadecimal, with colons between them.
pub open spec fn is_bssid_text(s: Seq<char>) -> bool {
    let parts = split_text(s, ':');
    parts.len() == 6 && forall|i: int| 0 <= i < 6 ==> hex_octet(#[trigger] parts[i]) is Some
}

/// Parse a `xx:xx:xx:xx:xx:xx` BSSID string into a 6-byte array. Returns
/// `None` for malformed input (wrong number of octets, non-hex digits).
pub fn parse_bssid(s: &str) -> (r: Option<[u8; 6]>)
    ensures
        r is Some <==> is_bssid_text(s@),
        r matches Some(octets) ==> forall|i: int|
            0 <= i < 6 ==> Some(#[trigger] octets@[i]) == hex_octet(split_text(s@, ':')[i]),
{
    let parts = split(s, ':');
    let ghost views = split_text(s@, ':');
    assert(forall|k: int| 0 <= k < parts@.len() ==> views[k] == (#[trigger] parts@[k])@);
    if parts.len() != 6 {
        return None;
    }
    let mut out: [u8; 6] = [0; 6];
    let mut i: usize = 0;
    while i < 6
        invariant
            i <= 6,
            parts@.len() == 6,
            views == split_text(s@, ':'),
            views == part_views(parts@),
            forall|k: int| 0 <= k < i ==> Some(#[trigger] out@[k]) == hex_octet(views[k]),
        decreases 6 - i,
    {
        assert(views[i as int] == parts@[i as int]@);
        match parse_hex_octet(&parts[i]) {
            Some(octet) => {
                out[i] = octet;
            },
            None => {
                assert(hex_octet(views[i as int]) is None);
                return None;
            },
        }
        i = i + 1;
    }
    proof {
        assert forall|k: int| 0 <= k < 6 implies hex_octet(#[trigger] views[k]) is Some by {
            assert(Some(out@[k]) == hex_octet(views[k]));
        }
    }
    Some(out)
}

/// The octets of an address text, if it is one.
pub open spec fn bssid_reading(text: Option<String>, octets: Option<[u8; 6]>) -> bool {
    match text {
        None => octets is None,
        Some(s) => {
            &&& octets is Some <==> is_bssid_text(s@)
            &&& octets matches Some(o) ==> forall|i: int|
                0 <= i < 6 ==> Some(#[trigger] o@[i]) == hex_octet(split_text(s@, ':')[i])
        },
    }
}

/// How an address is written: two digits for each octet, with colons between
/// them.
pub open spec fn bssid_text(octets: Seq<u8>, upper: bool) -> Seq<char>
    decreases octets.len(),
{
    if octets.len() == 0 {
        seq![]
    } else if octets.len() == 1 {
        hex_text(octets[0] as nat, 2, upper)
    } else {
        bssid_text(octets.drop_last(), upper) + seq![':'] + hex_text(
            octets.last() as nat,
            2,
            upper,
        )
    }
}

proof fn lemma_two_digits(b: u8, upper: bool)
    ensures
        hex_octet(hex_text(b as nat, 2, upper)) == Some(b),
        !hex_text(b as nat, 2, upper).contains(':'),
{
    let text = hex_text(b as nat, 2, upper);
    reveal_with_fuel(hex_text, 3);
    let high = hex_digit(b as int / 16, upper);
    let low = hex_digit(b as int % 16, upper);
    assert(text =~= seq![high, low]);
    assert(hex_digit_value(high) == Some(b as int / 16));
    assert(hex_digit_value(low) == Some(b as int % 16));
    assert(text.drop_last() =~= seq![high]);
    assert(text.drop_last().drop_last() =~= seq![]);
    reveal_with_fuel(hex_value, 3);
    assert(hex_value(text) == Some(b as int / 16 * 16 + b as int % 16));
}

proof fn lemma_split_one(s: Seq<char>, separator: char)
    requires
        !s.contains(separator),
    ensures
        split_text(s, separator) == seq![s],
    decreases s.len(),
{
    if s.len() == 0 {
        assert(s =~= seq![]);
    } else {
        let rest = s.drop_last();
        assert(s[s.len() - 1] != separator);
        assert forall|i: int| 0 <= i < rest.len() implies rest[i] != separator by {
            assert(rest[i] == s[i]);
        }
        lemma_split_one(rest, separator);
        assert(rest.push(s.last()) =~= s);
        assert(split_text(s, separator) =~= seq![s]);
    }
}

proof fn lemma_split_append(s: Seq<char>, separator: char, tail: Seq<char>)
    requires
        !tail.contains(separator),
    ensures
        split_text(s + seq![separator] + tail, separator) == split_text(s, separator).push(tail),
    decreases tail.len(),
{
    let whole = s + seq![separator] + tail;
    if tail.len() == 0 {
        assert(whole.drop_last() =~= s);
        assert(tail =~= seq![]);
    } else {
        let rest = tail.drop_last();
        assert(tail[tail.len() - 1] != separator);
        assert forall|i: int| 0 <= i < rest.len() implies rest[i] != separator by {
            assert(rest[i] == tail[i]);
        }
        lemma_split_append(s, separator, rest);
        assert(whole.drop_last() =~= s + seq![separator] + rest);
        assert(rest.push(tail.last()) =~= tail);
        assert(split_text(whole, separator) =~= split_text(s, separator).push(tail));
    }
}

proof fn lemma_bssid_parts(octets: Seq<u8>, upper: bool)
    requires
        octets.len() > 0,
    ensures
        split_text(bssid_text(octets, upper), ':') == octets.map_values(
            |b: u8| hex_text(b as nat, 2, upper),
        ),
    decreases octets.len(),
{
    let last = octets.last();
    lemma_two_digits(last, upper);
    let wanted = octets.map_values(|b: u8| hex_text(b as nat, 2, upper));
    if octets.len() == 1 {
        lemma_split_one(hex_text(last as nat, 2, upper), ':');
        assert(wanted =~= seq![hex_text(last as nat, 2, upper)]);
    } else {
        let rest = octets.drop_last();
        lemma_bssid_parts(rest, upper);
        lemma_split_append(bssid_text(rest, upper), ':', hex_text(last as nat, 2, upper));
        assert(wanted =~= rest.map_values(|b: u8| hex_text(b as nat, 2, upper)).push(
            hex_text(last as nat, 2, upper),
        ));
    }
}

/// An address survives being written and parsed, in small as in capital letters.
pub proof fn bssid_round_trips(octets: Seq<u8>, upper: bool)
    requires
        octets.len() == 6,
    ensures
        is_bssid_text(bssid_text(octets, upper)),
        forall|i: int|
            0 <= i < 6 ==> hex_octet(split_text(bssid_text(octets, upper), ':')[i]) == Some(
                #[trigger] octets[i],
            ),
{
    lemma_bssid_parts(octets, upper);
    let parts = split_text(bssid_text(octets, upper), ':');
    assert forall|i: int| 0 <= i < 6 implies hex_octet(#[trigger] parts[i]) == Some(octets[i]) by {
        lemma_two_digits(octets[i], upper);
    }
    assert forall|i: int| 0 <= i < 6 implies hex_octet(parts[i]) == Some(#[trigger] octets[i]) by {
        assert(hex_octet(parts[i]) == Some(octets[i]));
    }
}

/// A text is an address exactly when it is six parts with a colon between them,
/// each of one or more hexadecimal digits with a value below 256.
pub proof fn addresses_are_six_octets(s: Seq<char>)
    ensures
        is_bssid_text(s) <==> split_text(s, ':').len() == 6 && forall|i: int|
            0 <= i < 6 ==> (#[trigger] split_text(s, ':')[i]).len() > 0 && hex_value(
                split_text(s, ':')[i],
            ) is Some && hex_value(split_text(s, ':')[i])->0 < 256,
{
    let parts = split_text(s, ':');
    assert forall|i: int| 0 <= i < parts.len() implies (hex_octet(#[trigger] parts[i]) is Some
        <==> parts[i].len() > 0 && hex_value(parts[i]) is Some && hex_value(parts[i])->0 < 256) by {
        octets_are_small_numbers(parts[i]);
    }
    if is_bssid_text(s) {
        assert forall|i: int| 0 <= i < 6 implies (#[trigger] split_text(s, ':')[i]).len() > 0
            && hex_value(split_text(s, ':')[i]) is Some && hex_value(split_text(s, ':')[i])->0
            < 256 by {
            assert(hex_octet(parts[i]) is Some);
        }
    }
}

/// What was read of an address is its six octets, and nothing where there is no
/// text or it is no address.
pub proof fn addresses_are_read_octet_by_octet(
    text: Option<String>,
    octets: Option<[u8; 6]>,
    i: int,
)
    requires
        bssid_reading(text, octets),
        0 <= i < 6,
    ensures
        octets is Some <==> text is Some && is_bssid_text(text->0@),
        octets is Some ==> split_text(text->0@, ':').len() == 6 && hex_value(
            split_text(text->0@, ':')[i],
        ) == Some(octets->0@[i] as int),
{
    if octets is Some {
        octets_are_small_numbers(split_text(text->0@, ':')[i]);
        assert(Some(octets->0@[i]) == hex_octet(split_text(text->0@, ':')[i]));
    }
}

} // verus!
