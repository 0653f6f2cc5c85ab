//! Conversion helpers between Win32 primitives and the library's types.

use vstd::prelude::*;

use crate::assoc::Key;
use crate::error::{failure, Error, ErrorView, OsError, OsErrorView};
pub use crate::error::Win32Error;
use crate::text::{
    chars_of, hex_digit_value, hex_text, hex_value, push_hex, range_string, upper_hex_digit,
};
use crate::types::AdapterId;

verus! {

broadcast use vstd::string::group_string_axioms;

/// `ERROR_NOT_FOUND`.
pub const ERROR_NOT_FOUND: u32 = 0x490;

/// The error for a non-zero status of a Win32 function.
pub open spec fn win32_failure(function: Seq<char>, code: u32) -> ErrorView {
    ErrorView::Os(OsErrorView::Win32 { function, code })
}

/// The error for a non-zero status of a Win32 function.
pub fn win32_error(function: &'static str, code: u32) -> (r: Error)
    ensures
        r@ == win32_failure(function@, code),
{
    Error::Os(Box::new(OsError::Win32(Win32Error { function, code })))
}

/// Convert the status returned by a `Wlan*` function.
///
/// Returns `Ok(())` if the code is `ERROR_SUCCESS` (0).
///
/// # Errors
///
/// Returns `Error::Os(_)` for any non-zero `code`.
pub fn check_win32(function: &'static str, code: u32) -> (r: Result<(), Error>)
    ensures
        failure(r) == (if code == 0 {
            None
        } else {
            Some(win32_failure(function@, code))
        }),
{
    if code == 0 {
        Ok(())
    } else {
        Err(win32_error(function, code))
    }
}

/// An interface identifier.
#[derive(Debug, Clone, Copy, PartialEq, Eq, Hash)]
pub struct Guid {
    pub data1: u32,
    pub data2: u16,
    pub data3: u16,
    pub data4: [u8; 8],
}

/// What a [`Guid`] says.
pub struct GuidView {
    pub data1: u32,
    pub data2: u16,
    pub data3: u16,
    pub data4: Seq<u8>,
}

impl View for Guid {
    type V = GuidView;

    open spec fn view(&self) -> GuidView {
        GuidView { data1: self.data1, data2: self.data2, data3: self.data3, data4: self.data4@ }
    }
}

impl Guid {
    /// Whether both are the same identifier.
    pub fn same_as(&self, other: &Guid) -> (r: bool)
        ensures
            r == (self@ == other@),
    {
        if self.data1 != other.data1 || self.data2 != other.data2 || self.data3 != other.data3 {
            return false;
        }
        let mut i: usize = 0;
        while i < 8
            invariant
                i <= 8,
                forall|k: int| 0 <= k < i ==> self.data4@[k] == other.data4@[k],
            decreases 8 - i,
        {
            if self.data4[i] != other.data4[i] {
                return false;
            }
            i = i + 1;
        }
        assert(self.data4@ =~= other.data4@);
        true
    }
}

impl Key for Guid {
    fn same_key(&self, other: &Guid) -> (r: bool) {
        self.same_as(other)
    }
}

/// The hexadecimal digits of an identifier, in its five groups.
pub open spec fn guid_digits(g: GuidView) -> Seq<char> {
    hex_text(g.data1 as nat, 8, true) + seq!['-'] + hex_text(g.data2 as nat, 4, true) + seq!['-']
        + hex_text(g.data3 as nat, 4, true) + seq!['-'] + hex_text(g.data4[0] as nat, 2, true)
        + hex_text(g.data4[1] as nat, 2, true) + seq!['-'] + hex_text(g.data4[2] as nat, 2, true)
        + hex_text(g.data4[3] as nat, 2, true) + hex_text(g.data4[4] as nat, 2, true) + hex_text(
        g.data4[5] as nat,
        2,
        true,
    ) + hex_text(g.data4[6] as nat, 2, true) + hex_text(g.data4[7] as nat, 2, true)
}

/// The canonical bracketed form of an identifier.
pub open spec fn guid_text(g: GuidView) -> Seq<char> {
    seq!['{'] + guid_digits(g) + seq!['}']
}

/// Render a `Guid` as the canonical bracketed string Windows uses
/// for interface identifiers, e.g.
/// `"{12345678-1234-1234-1234-123456789ABC}"`.
pub fn guid_to_adapter_id(g: &Guid) -> (r: AdapterId)
    ensures
        r@ == guid_text(g@),
{
    let mut out = String::new();
    out.push('{');
    push_hex(&mut out, g.data1, 8, true);
    out.push('-');
    push_hex(&mut out, g.data2 as u32, 4, true);
    out.push('-');
    push_hex(&mut out, g.data3 as u32, 4, true);
    out.push('-');
    push_hex(&mut out, g.data4[0] as u32, 2, true);
    push_hex(&mut out, g.data4[1] as u32, 2, true);
    out.push('-');
    push_hex(&mut out, g.data4[2] as u32, 2, true);
    push_hex(&mut out, g.data4[3] as u32, 2, true);
    push_hex(&mut out, g.data4[4] as u32, 2, true);
    push_hex(&mut out, g.data4[5] as u32, 2, true);
    push_hex(&mut out, g.data4[6] as u32, 2, true);
    push_hex(&mut out, g.data4[7] as u32, 2, true);
    out.push('}');
    assert(out@ =~= guid_text(g@));
    AdapterId::new(out.as_str())
}

/// Where the dashes between the groups of digits stand.
pub open spec fn is_dash_position(i: int) -> bool {
    i == 8 || i == 13 || i == 18 || i == 23
}

/// Five groups of hexadecimal digits (8-4-4-4-12) with dashes between them.
pub open spec fn is_guid_digits(s: Seq<char>) -> bool {
    s.len() == 36 && forall|i: int|
        0 <= i < 36 ==> if is_dash_position(i) {
            #[trigger] s[i] == '-'
        } else {
            hex_digit_value(s[i]) is Some
        }
}

/// The identifier that digits stand for.
pub open spec fn is_guid_of(s: Seq<char>, g: GuidView) -> bool {
    &&& hex_value(s.subrange(0, 8)) == Some(g.data1 as int)
    &&& hex_value(s.subrange(9, 13)) == Some(g.data2 as int)
    &&& hex_value(s.subrange(14, 18)) == Some(g.data3 as int)
    &&& g.data4.len() == 8
    &&& hex_value(s.subrange(19, 21)) == Some(g.data4[0] as int)
    &&& hex_value(s.subrange(21, 23)) == Some(g.data4[1] as int)
    &&& hex_value(s.subrange(24, 26)) == Some(g.data4[2] as int)
    &&& hex_value(s.subrange(26, 28)) == Some(g.data4[3] as int)
    &&& hex_value(s.subrange(28, 30)) == Some(g.data4[4] as int)
    &&& hex_value(s.subrange(30, 32)) == Some(g.data4[5] as int)
    &&& hex_value(s.subrange(32, 34)) == Some(g.data4[6] as int)
    &&& hex_value(s.subrange(34, 36)) == Some(g.data4[7] as int)
}

/// Wraps `windows_core::GUID::try_from`: it takes exactly the texts of five
/// groups of hexadecimal digits, in either case, with dashes between them, and
/// reads the numbers off the digits.
#[verifier::external_body]
fn parse_guid(s: &str) -> (r: Option<Guid>)
    ensures
        r is Some <==> is_guid_digits(s@),
        r matches Some(g) ==> is_guid_of(s@, g@),
{
    match windows_core::GUID::try_from(s) {
        Ok(g) => Some(Guid { data1: g.data1, data2: g.data2, data3: g.data3, data4: g.data4 }),
        Err(_) => None,
    }
}

/// A bracketed identifier.
pub open spec fn is_guid_text(s: Seq<char>) -> bool {
    s.len() >= 2 && s[0] == '{' && s.last() == '}' && is_guid_digits(s.subrange(1, s.len() - 1))
}

/// Parse a bracketed GUID string back into a `Guid`.
///
/// # Errors
///
/// Returns `Error::AdapterNotFound(_)` if `id` is not a syntactically valid
/// bracketed GUID.
pub fn adapter_id_to_guid(id: &AdapterId) -> (r: Result<Guid, Error>)
    ensures
        r is Ok <==> is_guid_text(id@),
        r matches Ok(g) ==> is_guid_of(id@.subrange(1, id@.len() - 1), g@),
        r matches Err(e) ==> e@ == ErrorView::AdapterNotFound(id@),
{
    let s = chars_of(id.as_str());
    if s.len() < 2 || s[0] != '{' || s[s.len() - 1] != '}' {
        return Err(Error::AdapterNotFound(id.to_string()));
    }
    let inner = range_string(&s, 1, s.len() - 1);
    match parse_guid(inner.as_str()) {
        Some(g) => Ok(g),
        None => Err(Error::AdapterNotFound(id.to_string())),
    }
}

/// Sixteen to the power of `w`.
spec fn pow16(w: nat) -> nat
    decreases w,
{
    if w == 0 {
        1
    } else {
        16 * pow16((w - 1) as nat)
    }
}

proof fn lemma_digit_value(n: int)
    requires
        0 <= n < 16,
    ensures
        hex_digit_value(upper_hex_digit(n)) == Some(n),
{
}

proof fn lemma_hex_round_trip(n: nat, w: nat)
    requires
        n < pow16(w),
    ensures
        hex_text(n, w, true).len() == w,
        hex_value(hex_text(n, w, true)) == Some(n as int),
        forall|i: int| 0 <= i < w ==> hex_digit_value(#[trigger] hex_text(n, w, true)[i]) is Some,
    decreases w,
{
    if w > 0 {
        let before = hex_text(n / 16, (w - 1) as nat, true);
        lemma_hex_round_trip(n / 16, (w - 1) as nat);
        lemma_digit_value((n % 16) as int);
        assert(hex_text(n, w, true).drop_last() =~= before);
        assert forall|i: int| 0 <= i < w implies hex_digit_value(
            #[trigger] hex_text(n, w, true)[i],
        ) is Some by {
            if i < w - 1 {
                assert(hex_text(n, w, true)[i] == before[i]);
            }
        }
    }
}

/// An identifier survives being rendered and parsed.
pub proof fn guid_round_trips(g: GuidView, back: GuidView)
    requires
        g.data4.len() == 8,
    ensures
        is_guid_text(guid_text(g)),
        is_guid_of(guid_text(g).subrange(1, guid_text(g).len() - 1), g),
        is_guid_of(guid_text(g).subrange(1, guid_text(g).len() - 1), back) ==> back == g,
{
    reveal_with_fuel(pow16, 9);
    lemma_hex_round_trip(g.data1 as nat, 8);
    lemma_hex_round_trip(g.data2 as nat, 4);
    lemma_hex_round_trip(g.data3 as nat, 4);
    assert forall|k: int| 0 <= k < 8 implies (#[trigger] g.data4[k]) < pow16(2) by {
        lemma_octet(g.data4[k]);
    }
    lemma_hex_round_trip(g.data4[0] as nat, 2);
    lemma_hex_round_trip(g.data4[1] as nat, 2);
    lemma_hex_round_trip(g.data4[2] as nat, 2);
    lemma_hex_round_trip(g.data4[3] as nat, 2);
    lemma_hex_round_trip(g.data4[4] as nat, 2);
    lemma_hex_round_trip(g.data4[5] as nat, 2);
    lemma_hex_round_trip(g.data4[6] as nat, 2);
    lemma_hex_round_trip(g.data4[7] as nat, 2);
    let s = guid_digits(g);
    assert(guid_text(g).subrange(1, guid_text(g).len() - 1) =~= s);
    assert(s.len() == 36);
    assert(s.subrange(0, 8) =~= hex_text(g.data1 as nat, 8, true));
    assert(s.subrange(9, 13) =~= hex_text(g.data2 as nat, 4, true));
    assert(s.subrange(14, 18) =~= hex_text(g.data3 as nat, 4, true));
    assert(s.subrange(19, 21) =~= hex_text(g.data4[0] as nat, 2, true));
    assert(s.subrange(21, 23) =~= hex_text(g.data4[1] as nat, 2, true));
    assert(s.subrange(24, 26) =~= hex_text(g.data4[2] as nat, 2, true));
    assert(s.subrange(26, 28) =~= hex_text(g.data4[3] as nat, 2, true));
    assert(s.subrange(28, 30) =~= hex_text(g.data4[4] as nat, 2, true));
    assert(s.subrange(30, 32) =~= hex_text(g.data4[5] as nat, 2, true));
    assert(s.subrange(32, 34) =~= hex_text(g.data4[6] as nat, 2, true));
    assert(s.subrange(34, 36) =~= hex_text(g.data4[7] as nat, 2, true));
    if is_guid_of(s, back) {
        assert(back.data4 =~= g.data4);
    }
}

proof fn lemma_octet(b: u8)
    ensures
        b < pow16(2),
{
    reveal_with_fuel(pow16, 3);
}

proof fn lemma_upper_digits(n: nat, w: nat)
    ensures
        hex_text(n, w, true).len() == w,
        forall|i: int|
            0 <= i < w ==> ('0' <= #[trigger] hex_text(n, w, true)[i] <= '9' || 'A' <= hex_text(
                n,
                w,
                true,
            )[i] <= 'F'),
    decreases w,
{
    if w > 0 {
        lemma_upper_digits(n / 16, (w - 1) as nat);
        assert(hex_text(n, w, true).drop_last() =~= hex_text(n / 16, (w - 1) as nat, true));
        assert forall|i: int| 0 <= i < w implies ('0' <= #[trigger] hex_text(n, w, true)[i] <= '9'
            || 'A' <= hex_text(n, w, true)[i] <= 'F') by {
            if i < w - 1 {
                assert(hex_text(n, w, true)[i] == hex_text(n / 16, (w - 1) as nat, true)[i]);
            }
        }
    }
}

/// An identifier is rendered in brackets, with capital digits and four dashes.
pub proof fn guids_are_rendered_in_capitals(g: GuidView, i: int)
    requires
        0 <= i < 38,
    ensures
        guid_text(g).len() == 38,
        i == 0 ==> guid_text(g)[i] == '{',
        i == 37 ==> guid_text(g)[i] == '}',
        i == 9 || i == 14 || i == 19 || i == 24 ==> guid_text(g)[i] == '-',
        !(i == 0 || i == 37 || i == 9 || i == 14 || i == 19 || i == 24) ==> '0' <= guid_text(g)[i]
            <= '9' || 'A' <= guid_text(g)[i] <= 'F',
{
    lemma_upper_digits(g.data1 as nat, 8);
    lemma_upper_digits(g.data2 as nat, 4);
    lemma_upper_digits(g.data3 as nat, 4);
    lemma_upper_digits(g.data4[0] as nat, 2);
    lemma_upper_digits(g.data4[1] as nat, 2);
    lemma_upper_digits(g.data4[2] as nat, 2);
    lemma_upper_digits(g.data4[3] as nat, 2);
    lemma_upper_digits(g.data4[4] as nat, 2);
    lemma_upper_digits(g.data4[5] as nat, 2);
    lemma_upper_digits(g.data4[6] as nat, 2);
    lemma_upper_digits(g.data4[7] as nat, 2);
}

/// A status that is not zero is reported with the function and the status.
pub proof fn statuses_name_their_function(function: Seq<char>, code: u32)
    ensures
        win32_failure(function, code) == ErrorView::Os(OsErrorView::Win32 { function, code }),
{
}

/// Two identifiers have the same view exactly when they are the same.
pub proof fn guid_views_are_faithful(a: Guid, b: Guid)
    ensures
        a@.data1 == a.data1 && a@.data2 == a.data2 && a@.data3 == a.data3,
        a@.data4 == a.data4@,
        a@ == b@ ==> a.data1 == b.data1 && a.data2 == b.data2 && a.data3 == b.data3 && a.data4@
            == b.data4@,
{
}

/// A text is an identifier exactly when it is 38 characters: brackets at both ends,
/// four dashes in their places, and hexadecimal digits in either case everywhere
/// else.
pub proof fn identifiers_are_bracketed_digits(s: Seq<char>)
    ensures
        is_guid_text(s) <==> s.len() == 38 && s[0] == '{' && s[37] == '}' && forall|i: int|
            0 < i < 37 ==> if i == 9 || i == 14 || i == 19 || i == 24 {
                #[trigger] s[i] == '-'
            } else {
                '0' <= s[i] <= '9' || 'a' <= s[i] <= 'f' || 'A' <= s[i] <= 'F'
            },
{
    let inner = s.subrange(1, s.len() - 1);
    if is_guid_text(s) {
        assert(s.last() == s[37]);
        assert forall|i: int| 0 < i < 37 implies if i == 9 || i == 14 || i == 19 || i == 24 {
            #[trigger] s[i] == '-'
        } else {
            '0' <= s[i] <= '9' || 'a' <= s[i] <= 'f' || 'A' <= s[i] <= 'F'
        } by {
            assert(inner[i - 1] == s[i]);
        }
    }
    if s.len() == 38 && s[0] == '{' && s[37] == '}' && forall|i: int|
        0 < i < 37 ==> if i == 9 || i == 14 || i == 19 || i == 24 {
            #[trigger] s[i] == '-'
        } else {
            '0' <= s[i] <= '9' || 'a' <= s[i] <= 'f' || 'A' <= s[i] <= 'F'
        } {
        assert(s.last() == s[37]);
        assert forall|i: int| 0 <= i < 36 implies if is_dash_position(i) {
            #[trigger] inner[i] == '-'
        } else {
            hex_digit_value(inner[i]) is Some
        } by {
            assert(inner[i] == s[i + 1]);
        }
    }
}

} // verus!
