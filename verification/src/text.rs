//! Text as sequences of characters: the string operations that the rest of the
//! library is built from, each with an exact contract.

use vstd::prelude::*;
use vstd::utf8::*;

verus! {

broadcast use vstd::string::group_string_axioms;

/// `String::push`: the character goes to the end.
pub assume_specification[ String::push ](s: &mut String, c: char)
    ensures
        final(s)@ == old(s)@.push(c),
;

/// `String::push_str`: the text goes to the end.
pub assume_specification[ String::push_str ](s: &mut String, t: &str)
    ensures
        final(s)@ == old(s)@ + t@,
;

/// Wraps `std::str::from_utf8`: there is a text exactly when the bytes are
/// well-formed UTF-8, and it is the one that they encode.
#[verifier::external_body]
pub(crate) fn utf8_text(bytes: &[u8]) -> (r: Option<&str>)
    ensures
        r is Some <==> valid_utf8(bytes@),
        r is Some ==> r->0@ == decode_utf8(bytes@),
{
    std::str::from_utf8(bytes).ok()
}

/// The text that `String::from_utf8_lossy` makes of arbitrary bytes.
pub uninterp spec fn utf8_lossy(bytes: Seq<u8>) -> Seq<char>;

/// Wraps `String::from_utf8_lossy`. Well-formed UTF-8 comes out as the text that
/// it encodes; which replacement characters stand for ill-formed bytes is left
/// to std.
#[verifier::external_body]
pub(crate) fn utf8_text_lossy(bytes: &[u8]) -> (r: String)
    ensures
        r@ == utf8_lossy(bytes@),
        valid_utf8(bytes@) ==> r@ == decode_utf8(bytes@),
{
    String::from_utf8_lossy(bytes).into_owned()
}

/// How `Debug` prints a text: in quotes, with escapes.
pub uninterp spec fn text_debug(s: Seq<char>) -> Seq<char>;

/// Wraps the `Debug` form of `str`, which is named but not described.
#[verifier::external_body]
pub(crate) fn quoted(s: &str) -> (r: String)
    ensures
        r@ == text_debug(s@),
{
    format!("{s:?}")
}

/// The characters of a text, one by one.
pub fn chars_of(s: &str) -> (v: Vec<char>)
    ensures
        v@ == s@,
{
    let mut v: Vec<char> = Vec::new();
    for c in it: s.chars()
        invariant
            v@ == it.seq().take(it.index() as int),
            it.seq() == s@,
    {
        v.push(c);
    }
    assert(v@ =~= s@);
    v
}

/// The text made of the given characters.
pub fn string_of(v: &Vec<char>) -> (s: String)
    ensures
        s@ == v@,
{
    range_string(v, 0, v.len())
}

/// The text made of the characters from `from` up to `to`.
pub fn range_string(v: &Vec<char>, from: usize, to: usize) -> (s: String)
    requires
        from <= to <= v@.len(),
    ensures
        s@ == v@.subrange(from as int, to as int),
{
    let mut s = String::new();
    let mut i: usize = from;
    while i < to
        invariant
            from <= i <= to <= v@.len(),
            s@ == v@.subrange(from as int, i as int),
        decreases to - i,
    {
        s.push(v[i]);
        i = i + 1;
    }
    s
}

/// Whether two texts are the same.
pub fn same_text(a: &str, b: &str) -> (r: bool)
    ensures
        r == (a@ == b@),
{
    a.to_owned() == b.to_owned()
}

/// Whether one of the texts is `wanted`.
pub open spec fn lists_text(texts: Seq<String>, wanted: Seq<char>) -> bool {
    exists|i: int| 0 <= i < texts.len() && (#[trigger] texts[i])@ == wanted
}

/// Whether one of the texts is `wanted`.
pub fn has_text(texts: &Vec<String>, wanted: &str) -> (r: bool)
    ensures
        r == lists_text(texts@, wanted@),
{
    let mut i: usize = 0;
    while i < texts.len()
        invariant
            i <= texts@.len(),
            forall|k: int| 0 <= k < i ==> (#[trigger] texts@[k])@ != wanted@,
        decreases texts@.len() - i,
    {
        if same_text(texts[i].as_str(), wanted) {
            return true;
        }
        i = i + 1;
    }
    false
}

/// Whether `pattern` stands in `v` at index `at`.
pub open spec fn stands_at(v: Seq<char>, pattern: Seq<char>, at: int) -> bool {
    0 <= at && at + pattern.len() <= v.len() && v.subrange(at, at + pattern.len()) == pattern
}

/// Whether `pattern` stands somewhere in `v`.
pub open spec fn occurs_in(v: Seq<char>, pattern: Seq<char>) -> bool {
    exists|at: int| stands_at(v, pattern, at)
}

fn check_at(v: &Vec<char>, pattern: &Vec<char>, at: usize) -> (r: bool)
    requires
        at + pattern@.len() <= v@.len(),
    ensures
        r == stands_at(v@, pattern@, at as int),
{
    let total: usize = v.len();
    let mut i: usize = 0;
    while i < pattern.len()
        invariant
            at + pattern@.len() <= v@.len() == total,
            i <= pattern@.len(),
            forall|k: int| 0 <= k < i ==> v@[at + k] == pattern@[k],
        decreases pattern@.len() - i,
    {
        if v[at + i] != pattern[i] {
            assert(v@.subrange(at as int, at + pattern@.len())[i as int] != pattern@[i as int]);
            return false;
        }
        i = i + 1;
    }
    assert(v@.subrange(at as int, at + pattern@.len()) =~= pattern@);
    true
}

/// Whether `pattern` occurs in `s`.
pub fn contains_text(s: &Vec<char>, pattern: &str) -> (r: bool)
    ensures
        r == occurs_in(s@, pattern@),
{
    let p = chars_of(pattern);
    if p.len() > s.len() {
        return false;
    }
    let last: usize = s.len() - p.len();
    let mut at: usize = 0;
    loop
        invariant
            p@ == pattern@,
            p@.len() <= s@.len(),
            last == s@.len() - p@.len(),
            at <= last,
            forall|k: int| 0 <= k < at ==> !stands_at(s@, pattern@, k),
        decreases last - at,
    {
        if check_at(s, &p, at) {
            return true;
        }
        if at == last {
            return false;
        }
        at = at + 1;
    }
}

/// Whether `s` ends with `suffix`.
pub fn ends_with(s: &str, suffix: &str) -> (r: bool)
    ensures
        r == suffix@.is_suffix_of(s@),
{
    let v = chars_of(s);
    let p = chars_of(suffix);
    if p.len() > v.len() {
        return false;
    }
    check_at(&v, &p, v.len() - p.len())
}

/// Whether characters begin with `prefix`.
pub fn starts_with(v: &Vec<char>, prefix: &str) -> (r: bool)
    ensures
        r == prefix@.is_prefix_of(v@),
{
    let p = chars_of(prefix);
    if p.len() > v.len() {
        return false;
    }
    check_at(v, &p, 0)
}

/// Whether characters are exactly that text.
pub fn is_text(v: &Vec<char>, text: &str) -> (r: bool)
    ensures
        r == (v@ == text@),
{
    same_text(string_of(v).as_str(), text)
}

/// A text without the quotes around it; unchanged where it has none on either
/// side.
pub open spec fn unquoted(s: Seq<char>) -> Seq<char> {
    if s.len() >= 2 && s[0] == '"' && s.last() == '"' {
        s.subrange(1, s.len() - 1)
    } else {
        s
    }
}

/// The digit of a number below sixteen, with capital letters.
pub open spec fn upper_hex_digit(n: int) -> char {
    if n == 0 {
        '0'
    } else if n == 1 {
        '1'
    } else if n == 2 {
        '2'
    } else if n == 3 {
        '3'
    } else if n == 4 {
        '4'
    } else if n == 5 {
        '5'
    } else if n == 6 {
        '6'
    } else if n == 7 {
        '7'
    } else if n == 8 {
        '8'
    } else if n == 9 {
        '9'
    } else if n == 10 {
        'A'
    } else if n == 11 {
        'B'
    } else if n == 12 {
        'C'
    } else if n == 13 {
        'D'
    } else if n == 14 {
        'E'
    } else {
        'F'
    }
}

/// The digit of a number below sixteen, with small letters.
pub open spec fn lower_hex_digit(n: int) -> char {
    if n < 10 {
        upper_hex_digit(n)
    } else if n == 10 {
        'a'
    } else if n == 11 {
        'b'
    } else if n == 12 {
        'c'
    } else if n == 13 {
        'd'
    } else if n == 14 {
        'e'
    } else {
        'f'
    }
}

/// The digit of a number below sixteen.
pub open spec fn hex_digit(n: int, upper: bool) -> char {
    if upper {
        upper_hex_digit(n)
    } else {
        lower_hex_digit(n)
    }
}

/// The last `width` hexadecimal digits of `n`, with leading zeros.
pub open spec fn hex_text(n: nat, width: nat, upper: bool) -> Seq<char>
    decreases width,
{
    if width == 0 {
        seq![]
    } else {
        hex_text(n / 16, (width - 1) as nat, upper).push(hex_digit((n % 16) as int, upper))
    }
}

/// Two hexadecimal digits for each byte, in order.
pub open spec fn bytes_hex(bytes: Seq<u8>, upper: bool) -> Seq<char> {
    Seq::new(
        2 * bytes.len(),
        |i: int|
            hex_digit(
                if i % 2 == 0 {
                    bytes[i / 2] as int / 16
                } else {
                    bytes[i / 2] as int % 16
                },
                upper,
            ),
    )
}

fn digit(n: u8, upper: bool) -> (c: char)
    requires
        n < 16,
    ensures
        c == hex_digit(n as int, upper),
{
    match n {
        0 => '0',
        1 => '1',
        2 => '2',
        3 => '3',
        4 => '4',
        5 => '5',
        6 => '6',
        7 => '7',
        8 => '8',
        9 => '9',
        10 => if upper { 'A' } else { 'a' },
        11 => if upper { 'B' } else { 'b' },
        12 => if upper { 'C' } else { 'c' },
        13 => if upper { 'D' } else { 'd' },
        14 => if upper { 'E' } else { 'e' },
        _ => if upper { 'F' } else { 'f' },
    }
}

/// Appends the last `width` hexadecimal digits of `n`.
pub fn push_hex(out: &mut String, n: u32, width: u8, upper: bool)
    ensures
        final(out)@ == old(out)@ + hex_text(n as nat, width as nat, upper),
    decreases width,
{
    if width > 0 {
        push_hex(out, n / 16, width - 1, upper);
        out.push(digit((n % 16) as u8, upper));
    }
}

/// Appends two hexadecimal digits for each byte.
pub fn push_bytes_hex(out: &mut String, bytes: &[u8], upper: bool)
    ensures
        final(out)@ == old(out)@ + bytes_hex(bytes@, upper),
{
    let mut i: usize = 0;
    while i < bytes.len()
        invariant
            i <= bytes@.len(),
            out@ =~= old(out)@ + bytes_hex(bytes@.take(i as int), upper),
        decreases bytes@.len() - i,
    {
        let b: u8 = bytes[i];
        out.push(digit(b / 16, upper));
        out.push(digit(b % 16, upper));
        assert(bytes_hex(bytes@.take(i + 1), upper) =~= bytes_hex(bytes@.take(i as int), upper).push(
            hex_digit(b as int / 16, upper),
        ).push(hex_digit(b as int % 16, upper)));
        i = i + 1;
    }
    assert(bytes@.take(bytes@.len() as int) =~= bytes@);
}

/// A number in decimal, without leading zeros.
pub open spec fn decimal_text(n: nat) -> Seq<char>
    decreases n,
{
    if n < 10 {
        seq![upper_hex_digit(n as int)]
    } else {
        decimal_text(n / 10).push(upper_hex_digit((n % 10) as int))
    }
}

/// A signed number in decimal.
pub open spec fn signed_text(n: int) -> Seq<char> {
    if n < 0 {
        seq!['-'] + decimal_text((-n) as nat)
    } else {
        decimal_text(n as nat)
    }
}

/// Appends `n` in decimal.
pub fn push_decimal(out: &mut String, n: u64)
    ensures
        final(out)@ == old(out)@ + decimal_text(n as nat),
    decreases n,
{
    if n >= 10 {
        push_decimal(out, n / 10);
    }
    out.push(digit((n % 10) as u8, true));
}

/// Appends a signed number in decimal.
pub fn push_signed(out: &mut String, n: i64)
    ensures
        final(out)@ == old(out)@ + signed_text(n as int),
{
    if n < 0 {
        out.push('-');
        push_decimal(out, (-(n + 1)) as u64 + 1);
    } else {
        push_decimal(out, n as u64);
    }
}

/// Different digits are different characters.
pub proof fn lemma_hex_digit_injective(m: int, n: int, upper: bool)
    requires
        0 <= m < 16,
        0 <= n < 16,
        hex_digit(m, upper) == hex_digit(n, upper),
    ensures
        m == n,
{
}

/// Bytes can be read back from their hexadecimal digits.
pub proof fn lemma_bytes_hex_injective(a: Seq<u8>, b: Seq<u8>, upper: bool)
    requires
        bytes_hex(a, upper) == bytes_hex(b, upper),
    ensures
        a == b,
{
    let x = bytes_hex(a, upper);
    let y = bytes_hex(b, upper);
    assert(x.len() == 2 * a.len());
    assert(y.len() == 2 * b.len());
    assert forall|i: int| 0 <= i < a.len() implies a[i] == b[i] by {
        assert(x[2 * i] == y[2 * i]);
        assert(x[2 * i + 1] == y[2 * i + 1]);
        lemma_hex_digit_injective(a[i] as int / 16, b[i] as int / 16, upper);
        lemma_hex_digit_injective(a[i] as int % 16, b[i] as int % 16, upper);
    }
    assert(a =~= b);
}

/// The parts of a text between its separators; one more than there are
/// separators.
pub open spec fn split_text(s: Seq<char>, separator: char) -> Seq<Seq<char>>
    decreases s.len(),
{
    if s.len() == 0 {
        seq![seq![]]
    } else {
        let parts = split_text(s.drop_last(), separator);
        if s.last() == separator {
            parts.push(seq![])
        } else {
            parts.update(parts.len() - 1, parts.last().push(s.last()))
        }
    }
}

proof fn lemma_split_not_empty(s: Seq<char>, separator: char)
    ensures
        split_text(s, separator).len() > 0,
    decreases s.len(),
{
    if s.len() > 0 {
        lemma_split_not_empty(s.drop_last(), separator);
    }
}

/// The characters of each part.
pub open spec fn part_views(parts: Seq<Vec<char>>) -> Seq<Seq<char>> {
    parts.map_values(|p: Vec<char>| p@)
}

/// Splits a text at each separator.
pub fn split(s: &str, separator: char) -> (parts: Vec<Vec<char>>)
    ensures
        part_views(parts@) == split_text(s@, separator),
        parts@.len() > 0,
{
    let chars = chars_of(s);
    let mut done: Vec<Vec<char>> = Vec::new();
    let mut part: Vec<char> = Vec::new();
    let mut i: usize = 0;
    assert(chars@.take(0) =~= seq![]);
    assert(part_views(done@).push(part@) =~= seq![seq![]]);
    while i < chars.len()
        invariant
            i <= chars@.len(),
            chars@ == s@,
            part_views(done@).push(part@) == split_text(s@.take(i as int), separator),
        decreases chars@.len() - i,
    {
        let c: char = chars[i];
        let ghost was = part_views(done@).push(part@);
        assert(s@.take(i + 1).drop_last() =~= s@.take(i as int));
        if c == separator {
            done.push(part);
            part = Vec::new();
            assert(part_views(done@).push(part@) =~= was.push(seq![]));
        } else {
            part.push(c);
            assert(part_views(done@).push(part@) =~= was.update(
                was.len() - 1,
                was.last().push(c),
            ));
        }
        i = i + 1;
    }
    assert(s@.take(s@.len() as int) =~= s@);
    let ghost was = part_views(done@).push(part@);
    done.push(part);
    assert(part_views(done@) =~= was);
    done
}

/// The value of a hexadecimal digit, small or capital.
pub open spec fn hex_digit_value(c: char) -> Option<int> {
    if '0' <= c <= '9' {
        Some(c as int - '0' as int)
    } else if 'a' <= c <= 'f' {
        Some(c as int - 'a' as int + 10)
    } else if 'A' <= c <= 'F' {
        Some(c as int - 'A' as int + 10)
    } else {
        None
    }
}

/// The number that hexadecimal digits stand for, if there is nothing else in the
/// text.
pub open spec fn hex_value(s: Seq<char>) -> Option<int>
    decreases s.len(),
{
    if s.len() == 0 {
        Some(0)
    } else {
        match (hex_value(s.drop_last()), hex_digit_value(s.last())) {
            (Some(v), Some(d)) => Some(v * 16 + d),
            _ => None,
        }
    }
}

fn digit_value(c: char) -> (r: Option<u8>)
    ensures
        r is Some <==> hex_digit_value(c) is Some,
        r matches Some(d) ==> d == hex_digit_value(c)->0 && d < 16,
{
    if '0' <= c && c <= '9' {
        Some((c as u32 - '0' as u32) as u8)
    } else if 'a' <= c && c <= 'f' {
        Some((c as u32 - 'a' as u32 + 10) as u8)
    } else if 'A' <= c && c <= 'F' {
        Some((c as u32 - 'A' as u32 + 10) as u8)
    } else {
        None
    }
}

proof fn lemma_hex_value_grows(s: Seq<char>, n: int)
    requires
        0 <= n <= s.len(),
        hex_value(s) is Some,
    ensures
        hex_value(s.take(n)) is Some,
        0 <= hex_value(s.take(n))->0 <= hex_value(s)->0,
    decreases s.len(),
{
    if n == s.len() {
        assert(s.take(n) =~= s);
        if n > 0 {
            lemma_hex_value_grows(s.drop_last(), n - 1);
            assert(s.drop_last().take(n - 1) =~= s.drop_last());
        }
    } else {
        lemma_hex_value_grows(s.drop_last(), n);
        assert(s.drop_last().take(n) =~= s.take(n));
    }
}

/// An octet in hexadecimal: digits, with a value that fits.
pub open spec fn hex_octet(s: Seq<char>) -> Option<u8> {
    if s.len() == 0 {
        None
    } else {
        match hex_value(s) {
            Some(v) if v <= 255 => Some(v as u8),
            _ => None,
        }
    }
}

/// Reads an octet in hexadecimal.
pub fn parse_hex_octet(s: &Vec<char>) -> (r: Option<u8>)
    ensures
        r == hex_octet(s@),
{
    if s.len() == 0 {
        return None;
    }
    let mut value: u16 = 0;
    let mut i: usize = 0;
    assert(s@.take(0) =~= seq![]);
    while i < s.len()
        invariant
            i <= s@.len(),
            s@.len() > 0,
            value <= 255,
            hex_value(s@.take(i as int)) == Some(value as int),
        decreases s@.len() - i,
    {
        let ghost n = i as int;
        assert(s@.take(n + 1).drop_last() =~= s@.take(n));
        assert(s@.take(n + 1).last() == s@[n]);
        proof {
            if hex_value(s@) is Some {
                lemma_hex_value_grows(s@, n + 1);
            }
        }
        match digit_value(s[i]) {
            Some(d) => {
                value = value * 16 + d as u16;
            },
            None => {
                assert(hex_value(s@) is None);
                return None;
            },
        }
        if value > 255 {
            return None;
        }
        i = i + 1;
    }
    assert(s@.take(i as int) =~= s@);
    Some(value as u8)
}

/// One pair of quotes around a text is taken off, and nothing else is changed.
pub proof fn unquoting_takes_one_pair(s: Seq<char>, inner: Seq<char>)
    ensures
        unquoted(seq!['"'] + inner + seq!['"']) == inner,
        s.len() < 2 || s[0] != '"' || s.last() != '"' ==> unquoted(s) == s,
{
    assert(unquoted(seq!['"'] + inner + seq!['"']) =~= inner);
}

/// A pattern occurs in a text exactly when the text is something, the pattern, and
/// something more.
pub proof fn patterns_occur_as_pieces(v: Seq<char>, pattern: Seq<char>)
    ensures
        occurs_in(v, pattern) <==> exists|head: Seq<char>, tail: Seq<char>|
            v == #[trigger] ((head + pattern) + tail),
{
    if occurs_in(v, pattern) {
        let at = choose|at: int| stands_at(v, pattern, at);
        let head = v.take(at);
        let tail = v.skip(at + pattern.len());
        assert(v =~= (head + pattern) + tail) by {
            assert forall|i: int| 0 <= i < v.len() implies v[i] == ((head + pattern) + tail)[i] by {
                if at <= i < at + pattern.len() {
                    assert(v.subrange(at, at + pattern.len())[i - at] == v[i]);
                }
            }
        }
    }
    if exists|head: Seq<char>, tail: Seq<char>| v == #[trigger] ((head + pattern) + tail) {
        let (head, tail) = choose|head: Seq<char>, tail: Seq<char>|
            v == #[trigger] ((head + pattern) + tail);
        let at = head.len() as int;
        assert(v.subrange(at, at + pattern.len()) =~= pattern);
        assert(stands_at(v, pattern, at));
    }
}

/// The parts of a text have no separator in them, and with a separator before each
/// of them they are the text with one before it.
pub proof fn parts_make_up_the_text(s: Seq<char>, separator: char)
    ensures
        split_text(s, separator).len() > 0,
        forall|i: int|
            0 <= i < split_text(s, separator).len() ==> !(#[trigger] split_text(
                s,
                separator,
            )[i]).contains(separator),
        split_text(s, separator).map_values(|p: Seq<char>| seq![separator] + p).flatten_alt()
            == seq![separator] + s,
    decreases s.len(),
{
    let led = |p: Seq<char>| seq![separator] + p;
    let parts = split_text(s, separator);
    if s.len() == 0 {
        let one = parts.map_values(led);
        assert(one.drop_last() =~= seq![]);
        assert(one.drop_last().flatten_alt() =~= seq![]);
        assert(one.flatten_alt() =~= seq![separator] + s);
    } else {
        let before = split_text(s.drop_last(), separator);
        parts_make_up_the_text(s.drop_last(), separator);
        let led_before = before.map_values(led);
        let led_parts = parts.map_values(led);
        if s.last() == separator {
            assert(led_parts.drop_last() =~= led_before);
            assert(led_parts.last() =~= seq![separator]);
            assert(led_parts.flatten_alt() =~= seq![separator] + s);
            assert forall|i: int| 0 <= i < parts.len() implies !(#[trigger] parts[i]).contains(
                separator,
            ) by {
                if i < before.len() {
                    assert(parts[i] == before[i]);
                }
            }
        } else {
            assert(led_parts.drop_last() =~= led_before.drop_last());
            assert(led_parts.last() =~= led_before.last().push(s.last()));
            assert(led_parts.flatten_alt() =~= led_before.flatten_alt().push(s.last()));
            assert(led_parts.flatten_alt() =~= seq![separator] + s);
            assert forall|i: int| 0 <= i < parts.len() implies !(#[trigger] parts[i]).contains(
                separator,
            ) by {
                if i < before.len() - 1 {
                    assert(parts[i] == before[i]);
                } else {
                    let last = before.last();
                    assert(!before[before.len() - 1].contains(separator));
                    assert(parts[i] == last.push(s.last()));
                    if parts[i].contains(separator) {
                        let k = choose|k: int| 0 <= k < parts[i].len() && parts[i][k] == separator;
                        assert(k < last.len());
                        assert(last[k] == separator);
                    }
                }
            }
        }
    }
}

/// A hexadecimal digit is the decimal digit or the letter of its number.
pub proof fn digits_are_numbered(n: int, upper: bool)
    requires
        0 <= n < 16,
    ensures
        hex_digit(n, upper) as int == if n < 10 {
            48 + n
        } else if upper {
            65 + n - 10
        } else {
            97 + n - 10
        },
{
}

/// The digit at an index is that of its power of sixteen.
pub proof fn hex_texts_are_positional(n: nat, width: nat, upper: bool, i: int)
    requires
        0 <= i < width,
    ensures
        hex_text(n, width, upper).len() == width,
        hex_text(n, width, upper)[i] == hex_digit(
            (n as int / vstd::arithmetic::power::pow(16, (width - 1 - i) as nat)) % 16,
            upper,
        ),
    decreases width,
{
    reveal_with_fuel(hex_text, 2);
    let rest = (width - 1) as nat;
    if i < width - 1 {
        hex_texts_are_positional(n / 16, rest, upper, i);
        let k = (rest - 1 - i) as nat;
        let p = vstd::arithmetic::power::pow(16, k);
        vstd::arithmetic::power::lemma_pow_positive(16, k);
        vstd::arithmetic::power::lemma_pow_adds(16, 1, k);
        vstd::arithmetic::power::lemma_pow1(16);
        vstd::arithmetic::div_mod::lemma_div_denominator(n as int, 16, p);
        assert(hex_text(n, width, upper)[i] == hex_text(n / 16, rest, upper)[i]);
    } else {
        vstd::arithmetic::power::lemma_pow0(16);
        if rest > 0 {
            hex_texts_are_positional(n / 16, rest, upper, 0);
        }
    }
}

/// A text is a hexadecimal number exactly when it is digits throughout, and its
/// value counts them in sixteens from the front.
pub proof fn hex_values_are_positional(s: Seq<char>)
    ensures
        hex_value(s) is Some <==> forall|i: int|
            0 <= i < s.len() ==> ('0' <= #[trigger] s[i] <= '9' || 'a' <= s[i] <= 'f' || 'A' <= s[i]
                <= 'F'),
        hex_value(s) matches Some(v) ==> v == s.fold_left(
            0int,
            |n: int, c: char|
                16 * n + if '0' <= c <= '9' {
                    c as int - 48
                } else if 'a' <= c <= 'f' {
                    c as int - 97 + 10
                } else {
                    c as int - 65 + 10
                },
        ),
    decreases s.len(),
{
    if s.len() > 0 {
        let rest = s.drop_last();
        hex_values_are_positional(rest);
        if hex_value(s) is Some {
            assert forall|i: int| 0 <= i < s.len() implies ('0' <= #[trigger] s[i] <= '9' || 'a'
                <= s[i] <= 'f' || 'A' <= s[i] <= 'F') by {
                if i < rest.len() {
                    assert(rest[i] == s[i]);
                }
            }
        }
        if forall|i: int|
            0 <= i < s.len() ==> ('0' <= #[trigger] s[i] <= '9' || 'a' <= s[i] <= 'f' || 'A' <= s[i]
                <= 'F') {
            assert forall|i: int| 0 <= i < rest.len() implies ('0' <= #[trigger] rest[i] <= '9' || 'a'
                <= rest[i] <= 'f' || 'A' <= rest[i] <= 'F') by {
                assert(rest[i] == s[i]);
            }
            assert(s[s.len() - 1] == s.last());
        }
    }
}

/// An octet text is one or more digits with a value below 256; it is that value.
pub proof fn octets_are_small_numbers(s: Seq<char>)
    ensures
        hex_octet(s) is Some <==> s.len() > 0 && hex_value(s) is Some && hex_value(s)->0 < 256,
        hex_octet(s) is Some ==> hex_octet(s)->0 == hex_value(s)->0,
{
    if hex_value(s) is Some {
        lemma_hex_value_grows(s, 0);
    }
}

/// A number in decimal is digits that count it in tens, and starts with a zero only
/// when it is zero.
pub proof fn decimals_are_positional(n: nat)
    ensures
        decimal_text(n).len() > 0,
        forall|i: int| 0 <= i < decimal_text(n).len() ==> '0' <= #[trigger] decimal_text(n)[i] <= '9',
        decimal_text(n).fold_left(0int, |v: int, c: char| 10 * v + (c as int - 48)) == n,
        decimal_text(n)[0] == '0' ==> n == 0 && decimal_text(n).len() == 1,
    decreases n,
{
    let value = |v: int, c: char| 10 * v + (c as int - 48);
    let text = decimal_text(n);
    if n < 10 {
        reveal_with_fuel(Seq::fold_left, 2);
        assert(text.drop_last() =~= seq![]);
    } else {
        let before = decimal_text(n / 10);
        decimals_are_positional(n / 10);
        assert(text.drop_last() =~= before);
        assert(text.last() as int == 48 + n % 10);
        assert forall|i: int| 0 <= i < text.len() implies '0' <= #[trigger] text[i] <= '9' by {
            if i < before.len() {
                assert(text[i] == before[i]);
            }
        }
        assert(text[0] == before[0]);
    }
}

/// A number below zero is a minus sign and its opposite; any other is printed as
/// it is.
pub proof fn signs_stand_first(n: int)
    ensures
        n < 0 ==> signed_text(n)[0] == '-' && signed_text(n).drop_first() == decimal_text(
            (-n) as nat,
        ),
        n >= 0 ==> signed_text(n) == decimal_text(n as nat),
{
    if n < 0 {
        assert(signed_text(n).drop_first() =~= decimal_text((-n) as nat));
    }
}

/// Each byte is printed as two digits, the high one first, where the byte stands.
pub proof fn bytes_are_printed_in_pairs(bytes: Seq<u8>, upper: bool, k: int)
    requires
        0 <= k < bytes.len(),
    ensures
        bytes_hex(bytes, upper).len() == 2 * bytes.len(),
        bytes_hex(bytes, upper)[2 * k] == hex_digit(bytes[k] as int / 16, upper),
        bytes_hex(bytes, upper)[2 * k + 1] == hex_digit(bytes[k] as int % 16, upper),
{
}

/// A text is listed exactly when one of the texts is the same, character by
/// character.
pub proof fn listed_texts_are_the_same(texts: Seq<String>, wanted: Seq<char>)
    ensures
        lists_text(texts, wanted) <==> texts.map_values(|t: String| t@).contains(wanted),
{
    let views = texts.map_values(|t: String| t@);
    if lists_text(texts, wanted) {
        let i = choose|i: int| 0 <= i < texts.len() && (#[trigger] texts[i])@ == wanted;
        assert(views[i] == wanted);
    }
    if views.contains(wanted) {
        let i = choose|i: int| 0 <= i < views.len() && views[i] == wanted;
        assert(texts[i]@ == wanted);
    }
}

} // verus!
