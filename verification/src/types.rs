//! The types that callers of the library handle.

use std::convert::Infallible;
use std::fmt::{Debug, Formatter};
use std::str::FromStr;
use std::time::Duration;

use vstd::prelude::*;
use vstd::utf8::*;

use crate::duration::{duration_nanos, seconds};
use crate::flags::SecurityFlags;
use crate::formatting::written;
use crate::scan_rollup::{band_from_mhz, band_of};
use crate::secret::Passphrase;
use crate::text::{
    bytes_hex,
    decimal_text,
    hex_digit,
    hex_text,
    lemma_bytes_hex_injective,
    push_bytes_hex,
    push_decimal,
    push_hex,
    quoted,
    text_debug,
    utf8_text,
};

verus! {

broadcast use vstd::string::group_string_axioms;

/// Wi-Fi SSID. Stored as raw octets per IEEE 802.11; SSIDs are not guaranteed
/// to be valid UTF-8 (though in practice almost all are).
#[derive(PartialEq, Eq, Hash)]
pub struct Ssid(Vec<u8>);

impl View for Ssid {
    type V = Seq<u8>;

    closed spec fn view(&self) -> Seq<u8> {
        self.0@
    }
}

impl Clone for Ssid {
    fn clone(&self) -> (r: Ssid)
        ensures
            r@ == self@,
    {
        let bytes = self.0.clone();
        assert(bytes@ =~= self.0@);
        Ssid(bytes)
    }
}

/// The printed form of octets that are not UTF-8, such as `<hex:0102ff>`.
pub open spec fn hex_form(bytes: Seq<u8>) -> Seq<char> {
    "<hex:"@ + bytes_hex(bytes, false) + ">"@
}

/// How an SSID is printed: verbatim when it is UTF-8, else as `<hex:0102ff>`.
pub open spec fn ssid_display(bytes: Seq<u8>) -> Seq<char> {
    if valid_utf8(bytes) {
        decode_utf8(bytes)
    } else {
        hex_form(bytes)
    }
}

/// Octets in hexadecimal, with commas between them, such as `01, ff`.
pub open spec fn hex_list(bytes: Seq<u8>) -> Seq<char>
    decreases bytes.len(),
{
    if bytes.len() == 0 {
        seq![]
    } else if bytes.len() == 1 {
        hex_text(bytes[0] as nat, 2, false)
    } else {
        hex_list(bytes.drop_last()) + ", "@ + hex_text(bytes.last() as nat, 2, false)
    }
}

/// How `Debug` prints an SSID: `Ssid("name")` when it is UTF-8, else
/// `Ssid([01, ff])`.
pub open spec fn ssid_debug(bytes: Seq<u8>) -> Seq<char> {
    if valid_utf8(bytes) {
        "Ssid("@ + text_debug(decode_utf8(bytes)) + ")"@
    } else {
        "Ssid(["@ + hex_list(bytes) + "])"@
    }
}

impl Ssid {
    /// Build an `Ssid` from a UTF-8 string.
    ///
    /// Length is **not** validated here. Use [`Ssid::try_from_bytes`] if you
    /// need explicit IEEE 802.11 length validation.
    pub fn from_utf8(s: &str) -> (r: Ssid)
        ensures
            r@ == encode_utf8(s@),
    {
        Ssid(vstd::slice::slice_to_vec(s.as_bytes()))
    }

    /// Build an `Ssid` from raw octets without length validation.
    pub fn from_bytes(bytes: Vec<u8>) -> (r: Ssid)
        ensures
            r@ == bytes@,
    {
        Ssid(bytes)
    }

    /// Build an `Ssid`, rejecting empty or >32-byte inputs per IEEE 802.11.
    ///
    /// # Errors
    ///
    /// Returns [`SsidError::InvalidLength`] if `bytes.len()` is `0` or
    /// greater than `32`. Per IEEE 802.11, an SSID must be 1..=32 bytes.
    pub fn try_from_bytes(bytes: Vec<u8>) -> (r: Result<Ssid, SsidError>)
        ensures
            r is Ok <==> 1 <= bytes@.len() <= 32,
            r is Ok ==> r->Ok_0@ == bytes@,
            r is Err ==> r->Err_0 == SsidError::InvalidLength(bytes@.len() as usize),
    {
        if bytes.is_empty() || bytes.len() > 32 {
            return Err(SsidError::InvalidLength(bytes.len()));
        }
        Ok(Ssid(bytes))
    }

    /// Borrow the raw SSID octets.
    pub fn as_bytes(&self) -> (r: &[u8])
        ensures
            r@ == self@,
    {
        self.0.as_slice()
    }

    /// Borrow the SSID as a `&str` if it is valid UTF-8.
    ///
    /// Returns `None` for SSIDs containing non-UTF-8 byte sequences
    /// (legal under IEEE 802.11 but rare in practice).
    pub fn as_str(&self) -> (r: Option<&str>)
        ensures
            r is Some <==> valid_utf8(self@),
            r is Some ==> r->0@ == decode_utf8(self@),
    {
        utf8_text(self.0.as_slice())
    }

    /// Whether both hold the same octets.
    pub fn same_as(&self, other: &Ssid) -> (r: bool)
        ensures
            r == (self@ == other@),
    {
        let r = self.0 == other.0;
        proof {
            if r {
                assert(self.0@ =~= other.0@);
            }
        }
        r
    }

    /// The printable form: UTF-8 verbatim, anything else as `<hex:0102ff>`, so
    /// that it is parseable and can be embedded in messages.
    pub fn to_string(&self) -> (r: String)
        ensures
            r@ == ssid_display(self@),
    {
        match self.as_str() {
            Some(s) => s.to_owned(),
            None => {
                let mut out = String::new();
                out.push_str("<hex:");
                push_bytes_hex(&mut out, self.0.as_slice(), false);
                out.push_str(">");
                out
            },
        }
    }
}

impl Ssid {
    fn debug_text(&self) -> (r: String)
        ensures
            r@ == ssid_debug(self@),
    {
        match self.as_str() {
            Some(s) => {
                let mut out = "Ssid(".to_owned();
                out.push_str(quoted(s).as_str());
                out.push_str(")");
                out
            },
            None => {
                let mut out = "Ssid([".to_owned();
                let mut i: usize = 0;
                assert(out@ =~= "Ssid(["@ + hex_list(self.0@.take(0)));
                while i < self.0.len()
                    invariant
                        i <= self.0@.len(),
                        out@ == "Ssid(["@ + hex_list(self.0@.take(i as int)),
                    decreases self.0@.len() - i,
                {
                    let ghost next = self.0@.take(i + 1);
                    assert(next.drop_last() =~= self.0@.take(i as int));
                    assert(next.last() == self.0@[i as int]);
                    if i > 0 {
                        out.push_str(", ");
                    }
                    push_hex(&mut out, self.0[i] as u32, 2, false);
                    assert(out@ =~= "Ssid(["@ + hex_list(next));
                    i = i + 1;
                }
                assert(self.0@.take(self.0@.len() as int) =~= self.0@);
                out.push_str("])");
                out
            },
        }
    }
}

impl Debug for Ssid {
    fn fmt(&self, f: &mut Formatter<'_>) -> (r: Result<(), std::fmt::Error>)
        ensures
            r is Ok ==> written(*final(f)) == written(*old(f)) + ssid_debug(self@),
    {
        f.write_str(self.debug_text().as_str())
    }
}

impl FromStr for Ssid {
    type Err = Infallible;

    /// Parse an `Ssid` from a UTF-8 string. Always succeeds (the parsing
    /// itself cannot fail; length validation is handled separately by
    /// [`Ssid::try_from_bytes`]).
    fn from_str(s: &str) -> (r: Result<Ssid, Infallible>)
        ensures
            r is Ok,
            r->Ok_0@ == encode_utf8(s@),
    {
        Ok(Ssid::from_utf8(s))
    }
}

/// An SSID made of a text gives that text back.
pub proof fn utf8_ssid_round_trips(s: Seq<char>)
    ensures
        valid_utf8(encode_utf8(s)),
        decode_utf8(encode_utf8(s)) == s,
        ssid_display(encode_utf8(s)) == s,
{
    encode_utf8_valid_utf8(s);
    encode_utf8_decode_utf8(s);
}

/// `a` is the text that stands for `b`, which is no text itself.
pub open spec fn mimics(a: Seq<u8>, b: Seq<u8>) -> bool {
    valid_utf8(a) && !valid_utf8(b) && decode_utf8(a) == hex_form(b)
}

/// Two SSIDs that print alike are the same SSID, unless one of them is the very
/// text that stands for the other.
pub proof fn ssid_display_is_injective(a: Seq<u8>, b: Seq<u8>)
    requires
        ssid_display(a) == ssid_display(b),
        !mimics(a, b),
        !mimics(b, a),
    ensures
        a == b,
{
    if valid_utf8(a) {
        decode_utf8_encode_utf8(a);
        decode_utf8_encode_utf8(b);
    } else {
        let open = "<hex:"@;
        let x = bytes_hex(a, false);
        let y = bytes_hex(b, false);
        assert(hex_form(a).len() == hex_form(b).len());
        assert(x =~= hex_form(a).subrange(open.len() as int, (open.len() + x.len()) as int));
        assert(y =~= hex_form(b).subrange(open.len() as int, (open.len() + y.len()) as int));
        lemma_bytes_hex_injective(a, b, false);
    }
}

/// Why octets were refused as an SSID.
#[derive(Debug)]
pub enum SsidError {
    InvalidLength(usize),
}

impl SsidError {
    /// The message for people.
    pub fn to_string(&self) -> (r: String)
        ensures
            self matches SsidError::InvalidLength(n) && r@ == "ssid length "@ + decimal_text(n as nat)
                + " is outside the valid range 1..=32"@,
    {
        let mut out = String::new();
        match self {
            SsidError::InvalidLength(n) => {
                out.push_str("ssid length ");
                push_decimal(&mut out, *n as u64);
                out.push_str(" is outside the valid range 1..=32");
            },
        }
        out
    }
}

/// Opaque, platform-stable identifier for a Wi-Fi adapter.
///
/// The internal representation is a string that is stable for the lifetime
/// of the OS install:
/// - **Windows:** the WLAN interface GUID (e.g. `"{00000000-...}"`).
/// - **macOS:** the BSD name (e.g. `"en0"`).
/// - **Android / iOS:** the synthetic single-adapter id `"wlan0"` / `"en0"`.
#[derive(PartialEq, Eq, Hash, Debug)]
pub struct AdapterId(String);

impl View for AdapterId {
    type V = Seq<char>;

    closed spec fn view(&self) -> Seq<char> {
        self.0@
    }
}

impl Clone for AdapterId {
    fn clone(&self) -> (r: AdapterId)
        ensures
            r@ == self@,
    {
        AdapterId(self.0.clone())
    }
}

impl AdapterId {
    /// Wrap a backend-supplied identifier string in an `AdapterId`.
    pub fn new(s: &str) -> (r: AdapterId)
        ensures
            r@ == s@,
    {
        AdapterId(s.to_owned())
    }

    /// Borrow the underlying identifier as a string slice.
    pub fn as_str(&self) -> (r: &str)
        ensures
            r@ == self@,
    {
        self.0.as_str()
    }

    /// Whether both are the same identifier.
    pub fn same_as(&self, other: &AdapterId) -> (r: bool)
        ensures
            r == (self@ == other@),
    {
        self.0 == other.0
    }

    /// The identifier as text.
    pub fn to_string(&self) -> (r: String)
        ensures
            r@ == self@,
    {
        self.0.clone()
    }
}

/// Knobs for `connect` / `connect_with_stored_credentials`.
#[derive(Debug)]
pub struct ConnectOptions {
    /// `None` means "platform default", which the library interprets as
    /// 30 seconds for the overall operation including the optional
    /// pre-flight scan.
    pub timeout: Option<Duration>,
}

/// The time limit of an overall operation, in nanoseconds.
pub open spec fn time_limit(options: ConnectOptions) -> nat {
    match options.timeout {
        Some(t) => duration_nanos(t),
        None => 30_000_000_000,
    }
}

impl Clone for ConnectOptions {
    fn clone(&self) -> (r: ConnectOptions)
        ensures
            r == *self,
    {
        ConnectOptions { timeout: self.timeout }
    }
}

impl Default for ConnectOptions {
    fn default() -> (r: ConnectOptions)
        ensures
            r.timeout is None,
    {
        ConnectOptions { timeout: None }
    }
}

impl ConnectOptions {
    /// Resolve the timeout, falling back to the platform default of 30s
    /// when [`ConnectOptions::timeout`] is `None`.
    pub fn effective_timeout(&self) -> (r: Duration)
        ensures
            self.timeout is Some ==> r == self.timeout->0,
            duration_nanos(r) == time_limit(*self),
    {
        match self.timeout {
            Some(t) => t,
            None => seconds(30),
        }
    }
}

/// Authentication material for a connection attempt.
#[derive(Debug)]
pub enum Credentials {
    /// Open network (no authentication).
    Open,
    /// WPA2/WPA3 Personal passphrase, held so that `Debug` does not leak the
    /// password and the buffer is wiped on drop.
    Password(Passphrase),
}

impl View for Credentials {
    type V = Option<Seq<char>>;

    /// The passphrase, if there is one.
    open spec fn view(&self) -> Option<Seq<char>> {
        match self {
            Credentials::Open => None,
            Credentials::Password(p) => Some(p@),
        }
    }
}

impl Clone for Credentials {
    fn clone(&self) -> (r: Credentials)
        ensures
            r@ == self@,
    {
        match self {
            Credentials::Open => Credentials::Open,
            Credentials::Password(p) => Credentials::Password(p.clone()),
        }
    }
}

impl Credentials {
    /// Convenience constructor for password-protected networks.
    pub fn password(pw: &str) -> (r: Credentials)
        ensures
            r is Password,
            r@ == Some(pw@),
    {
        Credentials::Password(Passphrase::new(pw.to_owned()))
    }

    /// The passphrase, if there is one.
    pub fn passphrase(&self) -> (r: Option<&str>)
        ensures
            r is Some <==> self@ is Some,
            r is Some ==> r->0@ == self@->0,
    {
        match self {
            Credentials::Open => None,
            Credentials::Password(p) => Some(p.expose_secret()),
        }
    }
}

/// Coarse frequency band.
#[derive(Copy, Clone, Debug, PartialEq, Eq, Structural)]
pub enum Band {
    Ghz2_4,
    Ghz5,
    Ghz6,
}

/// Options controlling a `list_visible_networks` call.
///
/// `force_rescan` is best-effort: macOS honors it (cached vs active
/// scan), Windows honors it via `WlanScan` + scan-complete notification,
/// Linux and Android may rate-limit / throttle and silently fall through
/// to cached results.
#[derive(Debug)]
pub struct ScanOptions {
    pub force_rescan: bool,
}

impl Clone for ScanOptions {
    fn clone(&self) -> (r: ScanOptions)
        ensures
            r == *self,
    {
        ScanOptions { force_rescan: self.force_rescan }
    }
}

impl Default for ScanOptions {
    fn default() -> (r: ScanOptions)
        ensures
            !r.force_rescan,
    {
        ScanOptions { force_rescan: false }
    }
}

/// One Wi-Fi network visible to a `WifiAdapter`, rolled up across all
/// observed BSSes broadcasting the same SSID.
///
/// Returned by `WifiAdapter::list_visible_networks`.
#[derive(Debug)]
pub struct VisibleNetwork {
    pub ssid: Ssid,
    pub signal_quality: u8,
    pub security: SecurityFlags,
    pub bss_count: u32,
    pub is_connected: bool,
    pub has_saved_profile: bool,
    pub rssi_dbm: Option<i16>,
    pub bssid: Option<[u8; 6]>,
    pub frequency_mhz: Option<u32>,
}

/// What a [`VisibleNetwork`] says, with the SSID as its octets.
pub struct NetworkView {
    pub ssid: Seq<u8>,
    pub signal_quality: u8,
    pub security: SecurityFlags,
    pub bss_count: nat,
    pub is_connected: bool,
    pub has_saved_profile: bool,
    pub rssi_dbm: Option<i16>,
    pub bssid: Option<[u8; 6]>,
    pub frequency_mhz: Option<u32>,
}

impl View for VisibleNetwork {
    type V = NetworkView;

    open spec fn view(&self) -> NetworkView {
        NetworkView {
            ssid: self.ssid@,
            signal_quality: self.signal_quality,
            security: self.security,
            bss_count: self.bss_count as nat,
            is_connected: self.is_connected,
            has_saved_profile: self.has_saved_profile,
            rssi_dbm: self.rssi_dbm,
            bssid: self.bssid,
            frequency_mhz: self.frequency_mhz,
        }
    }
}

impl Clone for VisibleNetwork {
    fn clone(&self) -> (r: VisibleNetwork)
        ensures
            r@ == self@,
    {
        VisibleNetwork {
            ssid: self.ssid.clone(),
            signal_quality: self.signal_quality,
            security: self.security,
            bss_count: self.bss_count,
            is_connected: self.is_connected,
            has_saved_profile: self.has_saved_profile,
            rssi_dbm: self.rssi_dbm,
            bssid: self.bssid,
            frequency_mhz: self.frequency_mhz,
        }
    }
}

impl VisibleNetwork {
    /// Band derived from `frequency_mhz`. `None` iff `frequency_mhz` is
    /// `None` or falls outside the recognised 2.4 / 5 / 6 GHz windows.
    pub fn band(&self) -> (r: Option<Band>)
        ensures
            self.frequency_mhz is None ==> r is None,
            self.frequency_mhz is Some ==> r == band_of(self.frequency_mhz->0 as int),
    {
        match self.frequency_mhz {
            Some(mhz) => band_from_mhz(mhz),
            None => None,
        }
    }
}

/// A set of SSIDs.
#[derive(Debug)]
pub struct SsidSet {
    items: Vec<Ssid>,
}

impl View for SsidSet {
    type V = Set<Seq<u8>>;

    closed spec fn view(&self) -> Set<Seq<u8>> {
        Set::new(|s: Seq<u8>| exists|i: int| 0 <= i < self.items@.len() && #[trigger] self.items@[i]@ == s)
    }
}

impl SsidSet {
    /// Each SSID is kept once.
    #[verifier::type_invariant]
    spec fn no_duplicates(self) -> bool {
        forall|i: int, j: int|
            0 <= i < j < self.items@.len() ==> #[trigger] self.items@[i]@ != #[trigger] self.items@[j]@
    }

    /// The empty set.
    pub fn new() -> (r: SsidSet)
        ensures
            r@ == Set::<Seq<u8>>::empty(),
    {
        let r = SsidSet { items: Vec::new() };
        assert(r@ =~= Set::<Seq<u8>>::empty());
        r
    }

    /// Whether `ssid` is in the set.
    pub fn contains(&self, ssid: &Ssid) -> (r: bool)
        ensures
            r == self@.contains(ssid@),
    {
        let mut i: usize = 0;
        while i < self.items.len()
            invariant
                i <= self.items@.len(),
                forall|k: int| 0 <= k < i ==> #[trigger] self.items@[k]@ != ssid@,
            decreases self.items@.len() - i,
        {
            if self.items[i].same_as(ssid) {
                return true;
            }
            i = i + 1;
        }
        false
    }

    /// Puts `ssid` into the set. Returns whether it was new.
    pub fn insert(&mut self, ssid: Ssid) -> (r: bool)
        ensures
            final(self)@ == old(self)@.insert(ssid@),
            r == !old(self)@.contains(ssid@),
    {
        if self.contains(&ssid) {
            assert(self@ =~= self@.insert(ssid@));
            return false;
        }
        let mut items: Vec<Ssid> = Vec::new();
        proof {
            use_type_invariant(&*self);
        }
        std::mem::swap(&mut items, &mut self.items);
        items.push(ssid);
        self.items = items;
        assert(self@ =~= old(self)@.insert(ssid@)) by {
            let now = self.items@;
            let was = old(self).items@;
            assert forall|s: Seq<u8>| old(self)@.insert(ssid@).contains(s) implies self@.contains(s) by {
                if s == ssid@ {
                    assert(now[was.len() as int]@ == s);
                } else {
                    let i = choose|i: int| 0 <= i < was.len() && #[trigger] was[i]@ == s;
                    assert(now[i]@ == s);
                }
            }
        }
        true
    }
}

/// An SSID that is not UTF-8 is printed as its octets: two small digits for each,
/// in order, in brackets that say so; any other as its text.
pub proof fn ssids_print_their_octets(bytes: Seq<u8>, k: int)
    requires
        0 <= k < bytes.len(),
    ensures
        valid_utf8(bytes) ==> ssid_display(bytes) == decode_utf8(bytes),
        !valid_utf8(bytes) ==> {
            let text = ssid_display(bytes);
            &&& text.len() == 2 * bytes.len() + 6
            &&& text.take(5) == "<hex:"@
            &&& text.last() == '>'
            &&& text[5 + 2 * k] == hex_digit(bytes[k] as int / 16, false)
            &&& text[6 + 2 * k] == hex_digit(bytes[k] as int % 16, false)
        },
{
    reveal_strlit("<hex:");
    reveal_strlit(">");
    assert(hex_form(bytes).take(5) =~= "<hex:"@);
}

/// The octets in a list stand in their order, each as two small digits, with a
/// comma and a space before each but the first.
pub proof fn listed_octets_are_separated(bytes: Seq<u8>)
    requires
        bytes.len() > 0,
    ensures
        ", "@ + hex_list(bytes) == bytes.map_values(
            |b: u8| ", "@ + seq![hex_digit(b as int / 16, false), hex_digit(b as int % 16, false)],
        ).flatten_alt(),
    decreases bytes.len(),
{
    let led = |b: u8|
        ", "@ + seq![hex_digit(b as int / 16, false), hex_digit(b as int % 16, false)];
    let all = bytes.map_values(led);
    let last = bytes.last();
    reveal_with_fuel(hex_text, 3);
    assert((last as nat / 16) % 16 == last as nat / 16);
    assert(hex_text(last as nat, 2, false) =~= seq![
        hex_digit(last as int / 16, false),
        hex_digit(last as int % 16, false),
    ]);
    assert(all.last() == ", "@ + hex_text(last as nat, 2, false));
    if bytes.len() == 1 {
        assert(all.drop_last() =~= seq![]);
        assert(all.drop_last().flatten_alt() =~= seq![]);
        assert(all.flatten_alt() =~= ", "@ + hex_list(bytes));
    } else {
        let rest = bytes.drop_last();
        listed_octets_are_separated(rest);
        assert(all.drop_last() =~= rest.map_values(led));
        assert(all.flatten_alt() =~= ", "@ + hex_list(bytes));
    }
}

/// `Debug` prints an SSID in the brackets of its type: the quoted text, or the
/// list of octets.
pub proof fn ssids_are_debugged_in_brackets(bytes: Seq<u8>)
    ensures
        valid_utf8(bytes) ==> ssid_debug(bytes) == "Ssid("@ + text_debug(decode_utf8(bytes)) + ")"@,
        !valid_utf8(bytes) ==> ssid_debug(bytes) == "Ssid(["@ + hex_list(bytes) + "])"@,
{
}

/// The time limit is the one that was set, and thirty seconds where none was.
pub proof fn time_limits_are_as_set(limit: Duration)
    ensures
        time_limit(ConnectOptions { timeout: Some(limit) }) == duration_nanos(limit),
        time_limit(ConnectOptions { timeout: None }) == 30 * 1_000_000_000,
{
}

/// What a network says is what its fields hold, and credentials hold a passphrase
/// exactly when they are a password.
pub proof fn type_views_are_faithful(network: VisibleNetwork, passphrase: Passphrase)
    ensures
        network@.ssid == network.ssid@,
        network@.signal_quality == network.signal_quality,
        network@.security == network.security,
        network@.bss_count == network.bss_count,
        network@.is_connected == network.is_connected,
        network@.has_saved_profile == network.has_saved_profile,
        network@.rssi_dbm == network.rssi_dbm,
        network@.bssid == network.bssid,
        network@.frequency_mhz == network.frequency_mhz,
        Credentials::Open@ is None,
        Credentials::Password(passphrase)@ == Some(passphrase@),
{
}

} // verus!
