//! Profile XML builder for `WlanSetProfile`.
//!
//! See:
//! - WPA2-Personal sample: <https://learn.microsoft.com/en-us/windows/win32/nativewifi/wpa2-personal-profile-sample>
//! - Profile schema namespace: `http://www.microsoft.com/networking/WLAN/profile/v1`

use vstd::prelude::*;
use vstd::utf8::*;

use crate::text::{
    bytes_hex,
    chars_of,
    occurs_in,
    push_bytes_hex,
    stands_at,
    utf8_lossy,
    utf8_text_lossy,
};
use crate::types::Ssid;

verus! {

broadcast use vstd::string::group_string_axioms;

/// The profile up to its name.
pub const PROFILE_HEAD: &'static str = "<?xml version=\"1.0\" encoding=\"US-ASCII\"?>\n<WLANProfile xmlns=\"http://www.microsoft.com/networking/WLAN/profile/v1\">\n  <name>";

/// What stands between the name and the inner XML of `<SSID>`.
pub const PROFILE_SSID: &'static str = "</name>\n  <SSIDConfig>\n    <SSID>\n      ";

/// What stands between the inner XML of `<SSID>` and what `<security>` holds.
pub const PROFILE_SECURITY: &'static str = "\n    </SSID>\n  </SSIDConfig>\n  <connectionType>ESS</connectionType>\n  <connectionMode>manual</connectionMode>\n  <autoSwitch>false</autoSwitch>\n  <MSM>\n    <security>";

/// What follows on what `<security>` holds.
pub const PROFILE_END: &'static str = "</security>\n  </MSM>\n</WLANProfile>";

/// What `<security>` holds for a WPA2-PSK network, up to the passphrase.
pub const SECURITY_WPA2_PSK: &'static str = "\n      <authEncryption>\n        <authentication>WPA2PSK</authentication>\n        <encryption>AES</encryption>\n        <useOneX>false</useOneX>\n      </authEncryption>\n      <sharedKey>\n        <keyType>passPhrase</keyType>\n        <protected>false</protected>\n        <keyMaterial>";

/// What follows the passphrase in `<security>`.
pub const SECURITY_WPA2_PSK_END: &'static str = "</keyMaterial>\n      </sharedKey>\n    ";

/// What `<security>` holds for an open network.
pub const SECURITY_OPEN: &'static str = "\n      <authEncryption>\n        <authentication>open</authentication>\n        <encryption>none</encryption>\n        <useOneX>false</useOneX>\n      </authEncryption>\n    ";

/// What stands for a character in XML text and attribute values.
pub open spec fn escape_char(c: char) -> Seq<char> {
    if c == '&' {
        "&amp;"@
    } else if c == '<' {
        "&lt;"@
    } else if c == '>' {
        "&gt;"@
    } else if c == '"' {
        "&quot;"@
    } else if c == '\'' {
        "&apos;"@
    } else {
        seq![c]
    }
}

/// A text with the characters that have a meaning in XML replaced.
pub open spec fn escaped(s: Seq<char>) -> Seq<char>
    decreases s.len(),
{
    if s.len() == 0 {
        seq![]
    } else {
        escaped(s.drop_last()) + escape_char(s.last())
    }
}

/// Replaces the characters that have a meaning in XML.
pub fn xml_escape(input: &str) -> (r: String)
    ensures
        r@ == escaped(input@),
{
    let chars = chars_of(input);
    let mut out = String::new();
    let mut i: usize = 0;
    assert(escaped(chars@.take(0)) =~= seq![]);
    while i < chars.len()
        invariant
            chars@ == input@,
            i <= chars@.len(),
            out@ == escaped(chars@.take(i as int)),
        decreases chars@.len() - i,
    {
        let ghost was = out@;
        let c: char = chars[i];
        assert(chars@.take(i + 1).drop_last() =~= chars@.take(i as int));
        match c {
            '&' => out.push_str("&amp;"),
            '<' => out.push_str("&lt;"),
            '>' => out.push_str("&gt;"),
            '"' => out.push_str("&quot;"),
            '\'' => out.push_str("&apos;"),
            other => out.push(other),
        }
        assert(out@ =~= was + escape_char(c));
        i = i + 1;
    }
    assert(chars@.take(chars@.len() as int) =~= chars@);
    out
}

/// The inner XML of `<SSID>`.
pub open spec fn ssid_xml(ssid: Seq<u8>) -> Seq<char> {
    if valid_utf8(ssid) {
        "<name>"@ + escaped(decode_utf8(ssid)) + "</name>"@
    } else {
        "<name>"@ + escaped(utf8_lossy(ssid)) + "</name>\n      <hex>"@ + bytes_hex(ssid, true)
            + "</hex>"@
    }
}

/// The profile for an SSID, up to what `<security>` holds.
pub open spec fn profile_before_security(ssid: Seq<u8>) -> Seq<char> {
    PROFILE_HEAD@ + escaped(utf8_lossy(ssid)) + PROFILE_SSID@ + ssid_xml(ssid) + PROFILE_SECURITY@
}

/// The profile for an SSID, with what `<security>` holds.
pub open spec fn profile_with(ssid: Seq<u8>, security: Seq<char>) -> Seq<char> {
    profile_before_security(ssid) + security + PROFILE_END@
}

/// What `<security>` holds for a WPA2-PSK network.
pub open spec fn wpa2_psk_security(passphrase: Seq<char>) -> Seq<char> {
    SECURITY_WPA2_PSK@ + escaped(passphrase) + SECURITY_WPA2_PSK_END@
}

/// The profile for a WPA2-PSK network.
pub open spec fn wpa2_psk_profile(ssid: Seq<u8>, passphrase: Seq<char>) -> Seq<char> {
    profile_with(ssid, wpa2_psk_security(passphrase))
}

/// The profile for an open network.
pub open spec fn open_profile(ssid: Seq<u8>) -> Seq<char> {
    profile_with(ssid, SECURITY_OPEN@)
}

/// Choose the `<name>` text used as the profile name.
///
/// We use a lossy UTF-8 decode of the SSID bytes. Windows allows a wide
/// range of characters here; for non-UTF-8 SSIDs the lossy form lets us
/// still round-trip with `WlanDeleteProfile` later.
pub fn profile_name(ssid: &Ssid) -> (r: String)
    ensures
        r@ == utf8_lossy(ssid@),
        valid_utf8(ssid@) ==> r@ == decode_utf8(ssid@),
{
    utf8_text_lossy(ssid.as_bytes())
}

/// Upper-case hexadecimal digits of bytes.
pub fn bytes_to_upper_hex(bytes: &[u8]) -> (r: String)
    ensures
        r@ == bytes_hex(bytes@, true),
{
    let mut out = String::new();
    push_bytes_hex(&mut out, bytes, true);
    assert(out@ =~= bytes_hex(bytes@, true));
    out
}

/// Build the inner XML of `<SSID>`.
///
/// For UTF-8 SSIDs we emit `<name>...</name>` (Windows can match it against
/// scan results). For non-UTF-8 SSIDs we emit `<hex>...</hex>` plus a
/// best-effort `<name>` (Windows requires a printable name; we use the lossy
/// decode).
pub fn ssid_inner_xml(ssid: &Ssid) -> (r: String)
    ensures
        r@ == ssid_xml(ssid@),
{
    let mut out = "<name>".to_owned();
    match ssid.as_str() {
        Some(s) => {
            out.push_str(xml_escape(s).as_str());
            out.push_str("</name>");
        },
        None => {
            out.push_str(xml_escape(profile_name(ssid).as_str()).as_str());
            out.push_str("</name>\n      <hex>");
            out.push_str(bytes_to_upper_hex(ssid.as_bytes()).as_str());
            out.push_str("</hex>");
        },
    }
    out
}

fn build_profile(ssid: &Ssid, security: &str) -> (r: String)
    ensures
        r@ == profile_with(ssid@, security@),
{
    let mut out = PROFILE_HEAD.to_owned();
    out.push_str(xml_escape(profile_name(ssid).as_str()).as_str());
    out.push_str(PROFILE_SSID);
    out.push_str(ssid_inner_xml(ssid).as_str());
    out.push_str(PROFILE_SECURITY);
    out.push_str(security);
    out.push_str(PROFILE_END);
    out
}

/// Build a temporary WPA2-PSK profile.
///
/// `passphrase` must be 8..=63 printable ASCII characters per IEEE 802.11i.
/// Length validation is the caller's responsibility; this function only
/// produces XML.
pub fn build_wpa2_psk_profile(ssid: &Ssid, passphrase: &str) -> (r: String)
    ensures
        r@ == wpa2_psk_profile(ssid@, passphrase@),
{
    let mut security = SECURITY_WPA2_PSK.to_owned();
    security.push_str(xml_escape(passphrase).as_str());
    security.push_str(SECURITY_WPA2_PSK_END);
    build_profile(ssid, security.as_str())
}

/// Build a temporary open (no-auth) profile.
pub fn build_open_profile(ssid: &Ssid) -> (r: String)
    ensures
        r@ == open_profile(ssid@),
{
    build_profile(ssid, SECURITY_OPEN)
}

/// A character that can end or begin markup.
pub open spec fn is_markup(c: char) -> bool {
    c == '<' || c == '>' || c == '"' || c == '\''
}

proof fn lemma_escape_char(c: char)
    ensures
        escape_char(c).len() > 0,
        forall|i: int| 0 <= i < escape_char(c).len() ==> !is_markup(#[trigger] escape_char(c)[i]),
        escape_char(c)[0] == '&' <==> is_markup(c) || c == '&',
        c == '&' ==> escape_char(c) == seq!['&', 'a', 'm', 'p', ';'],
        c == '<' ==> escape_char(c) == seq!['&', 'l', 't', ';'],
        c == '>' ==> escape_char(c) == seq!['&', 'g', 't', ';'],
        c == '"' ==> escape_char(c) == seq!['&', 'q', 'u', 'o', 't', ';'],
        c == '\'' ==> escape_char(c) == seq!['&', 'a', 'p', 'o', 's', ';'],
{
    reveal_strlit("&amp;");
    reveal_strlit("&lt;");
    reveal_strlit("&gt;");
    reveal_strlit("&quot;");
    reveal_strlit("&apos;");
    assert("&amp;"@ =~= seq!['&', 'a', 'm', 'p', ';']);
    assert("&lt;"@ =~= seq!['&', 'l', 't', ';']);
    assert("&gt;"@ =~= seq!['&', 'g', 't', ';']);
    assert("&quot;"@ =~= seq!['&', 'q', 'u', 'o', 't', ';']);
    assert("&apos;"@ =~= seq!['&', 'a', 'p', 'o', 's', ';']);
}

/// Nothing in an escaped text can be taken for markup.
pub proof fn escaped_text_has_no_markup(s: Seq<char>)
    ensures
        forall|i: int| 0 <= i < escaped(s).len() ==> !is_markup(#[trigger] escaped(s)[i]),
    decreases s.len(),
{
    if s.len() > 0 {
        let before = escaped(s.drop_last());
        escaped_text_has_no_markup(s.drop_last());
        lemma_escape_char(s.last());
        assert forall|i: int| 0 <= i < escaped(s).len() implies !is_markup(
            #[trigger] escaped(s)[i],
        ) by {
            if i < before.len() {
                assert(escaped(s)[i] == before[i]);
            } else {
                assert(escaped(s)[i] == escape_char(s.last())[i - before.len()]);
            }
        }
    }
}

proof fn lemma_escaped_front(s: Seq<char>)
    requires
        s.len() > 0,
    ensures
        escaped(s) == escape_char(s[0]) + escaped(s.skip(1)),
    decreases s.len(),
{
    if s.len() == 1 {
        assert(s.drop_last() =~= seq![]);
        assert(s.skip(1) =~= seq![]);
    } else {
        lemma_escaped_front(s.drop_last());
        assert(s.drop_last().skip(1) =~= s.skip(1).drop_last());
    }
    assert(escaped(s) =~= escape_char(s[0]) + escaped(s.skip(1)));
}

/// Different texts have different escaped forms: nothing is lost.
pub proof fn escaping_is_injective(a: Seq<char>, b: Seq<char>)
    requires
        escaped(a) == escaped(b),
    ensures
        a == b,
    decreases a.len(),
{
    if a.len() == 0 {
        if b.len() > 0 {
            lemma_escaped_front(b);
            lemma_escape_char(b[0]);
            assert(escaped(b).len() > 0);
        }
        assert(a =~= b);
    } else {
        lemma_escaped_front(a);
        lemma_escape_char(a[0]);
        if b.len() == 0 {
            assert(escaped(a).len() > 0);
        } else {
            lemma_escaped_front(b);
            lemma_escape_char(b[0]);
            let x = escape_char(a[0]);
            let y = escape_char(b[0]);
            let whole = escaped(a);
            assert(whole[0] == x[0] && whole[0] == y[0]);
            if is_markup(a[0]) || a[0] == '&' {
                assert(whole[1] == x[1] && whole[1] == y[1]);
                assert(whole[2] == x[2] && whole[2] == y[2]);
            } else {
                assert(x =~= seq![a[0]]);
                assert(y =~= seq![b[0]]);
            }
            assert(a[0] == b[0]);
            assert(escaped(a.skip(1)) =~= whole.skip(x.len() as int));
            assert(escaped(b.skip(1)) =~= whole.skip(x.len() as int));
            escaping_is_injective(a.skip(1), b.skip(1));
            assert(a =~= seq![a[0]] + a.skip(1));
            assert(b =~= seq![b[0]] + b.skip(1));
        }
    }
}

/// No tag in `text` begins as `<sharedKey>` or `<keyMaterial>` do.
spec fn keyless(text: Seq<char>) -> bool {
    forall|i: int|
        0 <= i < text.len() && #[trigger] text[i] == '<' ==> i + 2 < text.len() && text[i + 1]
            != 'k' && (text[i + 1] != 's' || text[i + 2] != 'h')
}

proof fn lemma_keyless_profile_head()
    ensures
        keyless(PROFILE_HEAD@),
{
    reveal_strlit("<?xml version=\"1.0\" encoding=\"US-ASCII\"?>\n<WLANProfile xmlns=\"http://www.microsoft.com/networking/WLAN/profile/v1\">\n  <name>");
}

proof fn lemma_keyless_profile_ssid()
    ensures
        keyless(PROFILE_SSID@),
{
    reveal_strlit("</name>\n  <SSIDConfig>\n    <SSID>\n      ");
}

proof fn lemma_keyless_profile_security()
    ensures
        keyless(PROFILE_SECURITY@),
{
    reveal_strlit("\n    </SSID>\n  </SSIDConfig>\n  <connectionType>ESS</connectionType>\n  <connectionMode>manual</connectionMode>\n  <autoSwitch>false</autoSwitch>\n  <MSM>\n    <security>");
}

proof fn lemma_keyless_security_open()
    ensures
        keyless(SECURITY_OPEN@),
{
    reveal_strlit("\n      <authEncryption>\n        <authentication>open</authentication>\n        <encryption>none</encryption>\n        <useOneX>false</useOneX>\n      </authEncryption>\n    ");
}

proof fn lemma_keyless_profile_end()
    ensures
        keyless(PROFILE_END@),
{
    reveal_strlit("</security>\n  </MSM>\n</WLANProfile>");
}

proof fn lemma_keyless_append(a: Seq<char>, b: Seq<char>)
    requires
        keyless(a),
        keyless(b),
    ensures
        keyless(a + b),
{
    let whole = a + b;
    assert forall|i: int| 0 <= i < whole.len() && #[trigger] whole[i] == '<' implies i + 2
        < whole.len() && whole[i + 1] != 'k' && (whole[i + 1] != 's' || whole[i + 2] != 'h') by {
        if i < a.len() {
            assert(a[i] == '<');
            assert(whole[i + 1] == a[i + 1] && whole[i + 2] == a[i + 2]);
        } else {
            assert(b[i - a.len()] == '<');
            assert(whole[i + 1] == b[i - a.len() + 1] && whole[i + 2] == b[i - a.len() + 2]);
        }
    }
}

proof fn lemma_keyless_escaped(s: Seq<char>)
    ensures
        keyless(escaped(s)),
{
    escaped_text_has_no_markup(s);
    assert forall|i: int| 0 <= i < escaped(s).len() implies #[trigger] escaped(s)[i] != '<' by {
        assert(!is_markup(escaped(s)[i]));
    }
}

proof fn lemma_keyless_hex(bytes: Seq<u8>)
    ensures
        keyless(bytes_hex(bytes, true)),
{
    let hex = bytes_hex(bytes, true);
    assert forall|i: int| 0 <= i < hex.len() implies #[trigger] hex[i] != '<' by {}
}

proof fn lemma_keyless_ssid_xml(ssid: Seq<u8>)
    ensures
        keyless(ssid_xml(ssid)),
{
    reveal_strlit("<name>");
    reveal_strlit("</name>");
    reveal_strlit("</name>\n      <hex>");
    reveal_strlit("</hex>");
    assert(keyless("<name>"@));
    assert(keyless("</name>"@));
    assert(keyless("</name>\n      <hex>"@));
    assert(keyless("</hex>"@));
    if valid_utf8(ssid) {
        let name = escaped(decode_utf8(ssid));
        lemma_keyless_escaped(decode_utf8(ssid));
        lemma_keyless_append("<name>"@, name);
        lemma_keyless_append("<name>"@ + name, "</name>"@);
    } else {
        let name = escaped(utf8_lossy(ssid));
        let hex = bytes_hex(ssid, true);
        lemma_keyless_escaped(utf8_lossy(ssid));
        lemma_keyless_hex(ssid);
        lemma_keyless_append("<name>"@, name);
        lemma_keyless_append("<name>"@ + name, "</name>\n      <hex>"@);
        lemma_keyless_append("<name>"@ + name + "</name>\n      <hex>"@, hex);
        lemma_keyless_append("<name>"@ + name + "</name>\n      <hex>"@ + hex, "</hex>"@);
    }
}

proof fn lemma_keyless_open_profile(ssid: Seq<u8>)
    ensures
        keyless(open_profile(ssid)),
{
    let name = escaped(utf8_lossy(ssid));
    lemma_keyless_profile_head();
    lemma_keyless_profile_ssid();
    lemma_keyless_profile_security();
    lemma_keyless_security_open();
    lemma_keyless_profile_end();
    lemma_keyless_escaped(utf8_lossy(ssid));
    lemma_keyless_ssid_xml(ssid);
    lemma_keyless_append(PROFILE_HEAD@, name);
    lemma_keyless_append(PROFILE_HEAD@ + name, PROFILE_SSID@);
    lemma_keyless_append(PROFILE_HEAD@ + name + PROFILE_SSID@, ssid_xml(ssid));
    lemma_keyless_append(PROFILE_HEAD@ + name + PROFILE_SSID@ + ssid_xml(ssid), PROFILE_SECURITY@);
    lemma_keyless_append(profile_before_security(ssid), SECURITY_OPEN@);
    lemma_keyless_append(profile_before_security(ssid) + SECURITY_OPEN@, PROFILE_END@);
}

/// What stands in a part of a text stands in the text.
proof fn lemma_holds_within(
    before: Seq<char>,
    text: Seq<char>,
    after: Seq<char>,
    part: Seq<char>,
    at: int,
)
    requires
        stands_at(text, part, at),
    ensures
        occurs_in(before + text + after, part),
{
    let whole = before + text + after;
    let k = before.len() + at;
    assert(whole.subrange(k, k + part.len()) =~= text.subrange(at, at + part.len()));
    assert(stands_at(whole, part, k));
}

/// The profile of an open network says so, and holds no key.
pub proof fn open_profiles_hold_no_key(ssid: Seq<u8>)
    ensures
        occurs_in(open_profile(ssid), "<authentication>open</authentication>"@),
        occurs_in(open_profile(ssid), "<encryption>none</encryption>"@),
        !occurs_in(open_profile(ssid), "<sharedKey>"@),
        !occurs_in(open_profile(ssid), "<keyMaterial>"@),
{
    let text = open_profile(ssid);
    let before = profile_before_security(ssid);
    assert(stands_at(SECURITY_OPEN@, "<authentication>open</authentication>"@, 32)
        && stands_at(SECURITY_OPEN@, "<encryption>none</encryption>"@, 78)) by {
        reveal_strlit("\n      <authEncryption>\n        <authentication>open</authentication>\n        <encryption>none</encryption>\n        <useOneX>false</useOneX>\n      </authEncryption>\n    ");
        reveal_strlit("<authentication>open</authentication>");
        reveal_strlit("<encryption>none</encryption>");
        assert(SECURITY_OPEN@.subrange(32, 69) =~= "<authentication>open</authentication>"@);
        assert(SECURITY_OPEN@.subrange(78, 107) =~= "<encryption>none</encryption>"@);
    }
    lemma_holds_within(
        before,
        SECURITY_OPEN@,
        PROFILE_END@,
        "<authentication>open</authentication>"@,
        32,
    );
    lemma_holds_within(before, SECURITY_OPEN@, PROFILE_END@, "<encryption>none</encryption>"@, 78);
    lemma_keyless_open_profile(ssid);
    reveal_strlit("<sharedKey>");
    reveal_strlit("<keyMaterial>");
    assert forall|at: int| !#[trigger] stands_at(text, "<sharedKey>"@, at) by {
        if stands_at(text, "<sharedKey>"@, at) {
            let found = text.subrange(at, at + 11);
            assert(found[0] == '<' && found[1] == 's' && found[2] == 'h');
            assert(text[at] == '<' && text[at + 1] == 's' && text[at + 2] == 'h');
        }
    }
    assert forall|at: int| !#[trigger] stands_at(text, "<keyMaterial>"@, at) by {
        if stands_at(text, "<keyMaterial>"@, at) {
            let found = text.subrange(at, at + 13);
            assert(found[0] == '<' && found[1] == 'k');
            assert(text[at] == '<' && text[at + 1] == 'k');
        }
    }
}

/// The profile of a WPA2-PSK network says so, and holds the passphrase as its key.
pub proof fn wpa2_psk_profiles_hold_the_key(ssid: Seq<u8>, passphrase: Seq<char>)
    ensures
        occurs_in(wpa2_psk_profile(ssid, passphrase), "<authentication>WPA2PSK</authentication>"@),
        occurs_in(
            wpa2_psk_profile(ssid, passphrase),
            "<keyMaterial>"@ + escaped(passphrase) + "</keyMaterial>"@,
        ),
{
    let before = profile_before_security(ssid);
    let security = wpa2_psk_security(passphrase);
    let head = SECURITY_WPA2_PSK@;
    let tail = SECURITY_WPA2_PSK_END@;
    let mode = "<authentication>WPA2PSK</authentication>"@;
    let key = "<keyMaterial>"@ + escaped(passphrase) + "</keyMaterial>"@;
    let n = head.len() as int;
    reveal_strlit("\n      <authEncryption>\n        <authentication>WPA2PSK</authentication>\n        <encryption>AES</encryption>\n        <useOneX>false</useOneX>\n      </authEncryption>\n      <sharedKey>\n        <keyType>passPhrase</keyType>\n        <protected>false</protected>\n        <keyMaterial>");
    reveal_strlit("</keyMaterial>\n      </sharedKey>\n    ");
    reveal_strlit("<authentication>WPA2PSK</authentication>");
    reveal_strlit("<keyMaterial>");
    reveal_strlit("</keyMaterial>");
    assert(head.subrange(32, 72) =~= mode);
    assert(security.subrange(32, 72) =~= head.subrange(32, 72));
    assert(stands_at(security, mode, 32));
    assert(head.subrange(n - 13, n) =~= "<keyMaterial>"@);
    assert(tail.subrange(0, 14) =~= "</keyMaterial>"@);
    assert(security.subrange(n - 13, n - 13 + key.len()) =~= head.subrange(n - 13, n) + escaped(
        passphrase,
    ) + tail.subrange(0, 14));
    assert(stands_at(security, key, n - 13));
    lemma_holds_within(before, security, PROFILE_END@, mode, 32);
    lemma_holds_within(before, security, PROFILE_END@, key, n - 13);
}

/// The profiles of an SSID, open or with a passphrase, agree outside the
/// `<security>` element.
pub proof fn profiles_differ_in_security_only(ssid: Seq<u8>, passphrase: Seq<char>)
    ensures
        "<security>"@.is_suffix_of(profile_before_security(ssid)),
        "</security>"@.is_prefix_of(PROFILE_END@),
        profile_before_security(ssid).is_prefix_of(open_profile(ssid)),
        profile_before_security(ssid).is_prefix_of(wpa2_psk_profile(ssid, passphrase)),
        PROFILE_END@.is_suffix_of(open_profile(ssid)),
        PROFILE_END@.is_suffix_of(wpa2_psk_profile(ssid, passphrase)),
{
    let before = profile_before_security(ssid);
    let open = open_profile(ssid);
    let psk = wpa2_psk_profile(ssid, passphrase);
    assert(before =~= open.subrange(0, before.len() as int));
    assert(before =~= psk.subrange(0, before.len() as int));
    assert(PROFILE_END@ =~= open.subrange(open.len() - PROFILE_END@.len(), open.len() as int));
    assert(PROFILE_END@ =~= psk.subrange(psk.len() - PROFILE_END@.len(), psk.len() as int));
    reveal_strlit("\n    </SSID>\n  </SSIDConfig>\n  <connectionType>ESS</connectionType>\n  <connectionMode>manual</connectionMode>\n  <autoSwitch>false</autoSwitch>\n  <MSM>\n    <security>");
    reveal_strlit("</security>\n  </MSM>\n</WLANProfile>");
    reveal_strlit("<security>");
    reveal_strlit("</security>");
    let n = PROFILE_SECURITY@.len() as int;
    assert(PROFILE_SECURITY@.subrange(n - 10, n) =~= "<security>"@);
    assert(before.subrange(before.len() - 10, before.len() as int) =~= PROFILE_SECURITY@.subrange(
        n - 10,
        n,
    ));
    assert(PROFILE_END@.subrange(0, 11) =~= "</security>"@);
}

/// A text is escaped character by character, in order: the five characters that
/// have a meaning in XML by their entities, and any other as it is.
pub proof fn characters_are_escaped_in_order(s: Seq<char>)
    ensures
        escaped(s) == s.map_values(
            |c: char|
                if c == '&' {
                    "&amp;"@
                } else if c == '<' {
                    "&lt;"@
                } else if c == '>' {
                    "&gt;"@
                } else if c == '"' {
                    "&quot;"@
                } else if c == '\'' {
                    "&apos;"@
                } else {
                    seq![c]
                },
        ).flatten_alt(),
    decreases s.len(),
{
    let entity = |c: char|
        if c == '&' {
            "&amp;"@
        } else if c == '<' {
            "&lt;"@
        } else if c == '>' {
            "&gt;"@
        } else if c == '"' {
            "&quot;"@
        } else if c == '\'' {
            "&apos;"@
        } else {
            seq![c]
        };
    let entities = s.map_values(entity);
    if s.len() > 0 {
        characters_are_escaped_in_order(s.drop_last());
        assert(entities.drop_last() =~= s.drop_last().map_values(entity));
    } else {
        assert(entities.flatten_alt() =~= seq![]);
    }
}

/// An SSID stands in a profile as its name, and with its octets too where it is no
/// text.
pub proof fn profiles_name_the_ssid(ssid: Seq<u8>)
    ensures
        valid_utf8(ssid) ==> ssid_xml(ssid) == "<name>"@ + escaped(decode_utf8(ssid)) + "</name>"@,
        !valid_utf8(ssid) ==> ssid_xml(ssid) == "<name>"@ + escaped(utf8_lossy(ssid))
            + "</name>\n      <hex>"@ + bytes_hex(ssid, true) + "</hex>"@,
{
}

/// The profile for a WPA2-PSK network, from its first line to its last.
pub proof fn wpa2_psk_profiles_are_written_out(ssid: Seq<u8>, passphrase: Seq<char>)
    ensures
        wpa2_psk_profile(ssid, passphrase)
            == "<?xml version=\"1.0\" encoding=\"US-ASCII\"?>\n<WLANProfile xmlns=\"http://www.microsoft.com/networking/WLAN/profile/v1\">\n  <name>"@
            + escaped(utf8_lossy(ssid))
            + "</name>\n  <SSIDConfig>\n    <SSID>\n      "@
            + ssid_xml(ssid)
            + "\n    </SSID>\n  </SSIDConfig>\n  <connectionType>ESS</connectionType>\n  <connectionMode>manual</connectionMode>\n  <autoSwitch>false</autoSwitch>\n  <MSM>\n    <security>"@
            + ("\n      <authEncryption>\n        <authentication>WPA2PSK</authentication>\n        <encryption>AES</encryption>\n        <useOneX>false</useOneX>\n      </authEncryption>\n      <sharedKey>\n        <keyType>passPhrase</keyType>\n        <protected>false</protected>\n        <keyMaterial>"@
            + escaped(passphrase)
            + "</keyMaterial>\n      </sharedKey>\n    "@)
            + "</security>\n  </MSM>\n</WLANProfile>"@,
{
}

/// The profile for an open network, from its first line to its last.
pub proof fn open_profiles_are_written_out(ssid: Seq<u8>)
    ensures
        open_profile(ssid)
            == "<?xml version=\"1.0\" encoding=\"US-ASCII\"?>\n<WLANProfile xmlns=\"http://www.microsoft.com/networking/WLAN/profile/v1\">\n  <name>"@
            + escaped(utf8_lossy(ssid))
            + "</name>\n  <SSIDConfig>\n    <SSID>\n      "@
            + ssid_xml(ssid)
            + "\n    </SSID>\n  </SSIDConfig>\n  <connectionType>ESS</connectionType>\n  <connectionMode>manual</connectionMode>\n  <autoSwitch>false</autoSwitch>\n  <MSM>\n    <security>"@
            + "\n      <authEncryption>\n        <authentication>open</authentication>\n        <encryption>none</encryption>\n        <useOneX>false</useOneX>\n      </authEncryption>\n    "@
            + "</security>\n  </MSM>\n</WLANProfile>"@,
{
}

} // verus!
