//! What `NetworkManager` reports about access points and saved profiles.

use vstd::prelude::*;

use crate::bssid::{bssid_reading, parse_bssid};
use crate::error::{failure, Error, ErrorView};
use crate::flags::{no_flags, SecurityFlags};
use crate::scan_rollup::{optional_ssid, BssView, RawBss, ScanContext};
use crate::search::{
    first_settled,
    search,
    search_fails_at_the_first_failure,
    search_finds_the_first_match,
    verdict_views,
    Found,
    FoundView,
    Verdict,
    VerdictView,
};
use crate::text::same_text;
use crate::types::{Ssid, SsidSet};

verus! {

broadcast use vstd::string::group_string_axioms;

// NM80211ApFlags and NM80211ApSecurityFlags, see NetworkManager.h.
pub const PRIVACY: u32 = 0x1;
pub const KEY_MGMT_PSK: u32 = 0x100;
pub const KEY_MGMT_8021X: u32 = 0x200;
pub const KEY_MGMT_SAE: u32 = 0x400;
pub const KEY_MGMT_OWE: u32 = 0x800;
pub const KEY_MGMT_OWE_TM: u32 = 0x1000;
/// WPA3-Enterprise, Suite-B 192-bit (CNSA).
pub const KEY_MGMT_EAP_SUITE_B_192: u32 = 0x2000;
/// WPA3-Enterprise, the lower-strength variant.
pub const KEY_MGMT_EAP_SHA384: u32 = 0x4000;

/// Whether a flag word has the flag.
pub open spec fn has(word: u32, flag: u32) -> bool {
    word & flag != 0
}

/// The security modes that the information elements of an access point advertise.
pub open spec fn advertised_security(wpa_flags: u32, rsn_flags: u32) -> SecurityFlags {
    SecurityFlags {
        open: false,
        wep: false,
        wpa_psk: has(wpa_flags, KEY_MGMT_PSK),
        wpa2_psk: has(rsn_flags, KEY_MGMT_PSK),
        wpa3_sae: has(rsn_flags, KEY_MGMT_SAE),
        wpa2_enterprise: has(wpa_flags, KEY_MGMT_8021X) || has(rsn_flags, KEY_MGMT_8021X),
        wpa3_enterprise: has(rsn_flags, KEY_MGMT_EAP_SUITE_B_192) || has(
            rsn_flags,
            KEY_MGMT_EAP_SHA384,
        ),
        owe: has(rsn_flags, KEY_MGMT_OWE) || has(rsn_flags, KEY_MGMT_OWE_TM),
    }
}

/// The security modes of an access point. Without any information element the
/// privacy bit tells WEP from an open network.
pub open spec fn nm_security(flags: u32, wpa_flags: u32, rsn_flags: u32) -> SecurityFlags {
    let advertised = advertised_security(wpa_flags, rsn_flags);
    if advertised != no_flags() {
        advertised
    } else if has(flags, PRIVACY) {
        SecurityFlags::wep()
    } else {
        SecurityFlags::open()
    }
}

/// Translate `NetworkManager` `(Flags, WpaFlags, RsnFlags)` to `SecurityFlags`.
///
/// NM exposes both legacy WPA1 capabilities (`WpaFlags`) and RSN/WPA2/WPA3
/// capabilities (`RsnFlags`) as bitfields. The `Flags` field on the AP has
/// the privacy bit (`0x1`). WPA1-Enterprise counts as WPA2-Enterprise.
///
/// Mutual exclusion: an OWE BSS does not set the privacy bit, so we never
/// pair `OWE` with `OPEN`. If no IE-based key-management bit is set and OWE
/// is absent, we fall back to the privacy bit: set → `WEP`, clear → `OPEN`.
pub fn security_from_nm_flags(flags: u32, wpa_flags: u32, rsn_flags: u32) -> (r: SecurityFlags)
    ensures
        r == nm_security(flags, wpa_flags, rsn_flags),
{
    let mut out = SecurityFlags::empty();
    let saw_owe = rsn_flags & (KEY_MGMT_OWE | KEY_MGMT_OWE_TM) != 0;
    assert(rsn_flags & (KEY_MGMT_OWE | KEY_MGMT_OWE_TM) != 0 <==> rsn_flags & KEY_MGMT_OWE != 0
        || rsn_flags & KEY_MGMT_OWE_TM != 0) by (bit_vector);
    assert(rsn_flags & (KEY_MGMT_EAP_SUITE_B_192 | KEY_MGMT_EAP_SHA384) != 0 <==> rsn_flags
        & KEY_MGMT_EAP_SUITE_B_192 != 0 || rsn_flags & KEY_MGMT_EAP_SHA384 != 0) by (bit_vector);
    if saw_owe {
        out.insert(SecurityFlags::owe());
    }
    if wpa_flags & KEY_MGMT_PSK != 0 {
        out.insert(SecurityFlags::wpa_psk());
    }
    if wpa_flags & KEY_MGMT_8021X != 0 {
        out.insert(SecurityFlags::wpa2_enterprise());
    }
    if rsn_flags & KEY_MGMT_PSK != 0 {
        out.insert(SecurityFlags::wpa2_psk());
    }
    if rsn_flags & KEY_MGMT_8021X != 0 {
        out.insert(SecurityFlags::wpa2_enterprise());
    }
    if rsn_flags & KEY_MGMT_SAE != 0 {
        out.insert(SecurityFlags::wpa3_sae());
    }
    if rsn_flags & (KEY_MGMT_EAP_SUITE_B_192 | KEY_MGMT_EAP_SHA384) != 0 {
        out.insert(SecurityFlags::wpa3_enterprise());
    }
    if out.is_empty() && !saw_owe {
        if flags & PRIVACY != 0 {
            out.insert(SecurityFlags::wep());
        } else {
            out.insert(SecurityFlags::open());
        }
    }
    out
}

/// Every access point has some security mode, and one that counts as open or WEP
/// has no other mode.
pub proof fn nm_security_is_never_empty(flags: u32, wpa_flags: u32, rsn_flags: u32)
    ensures
        nm_security(flags, wpa_flags, rsn_flags) != no_flags(),
        nm_security(flags, wpa_flags, rsn_flags).open ==> nm_security(flags, wpa_flags, rsn_flags)
            == SecurityFlags::open(),
        nm_security(flags, wpa_flags, rsn_flags).wep ==> nm_security(flags, wpa_flags, rsn_flags)
            == SecurityFlags::wep(),
{
}

/// What was read about an access point; `None` where a read failed.
#[derive(Debug)]
pub struct ApReading {
    pub ssid: Option<Vec<u8>>,
    pub strength: Option<u8>,
    pub frequency: Option<u32>,
    pub hw_address: Option<String>,
    pub flags: Option<u32>,
    pub wpa_flags: Option<u32>,
    pub rsn_flags: Option<u32>,
}

/// A flag word, or nothing set where it could not be read.
pub open spec fn flags_or_none(word: Option<u32>) -> u32 {
    match word {
        Some(w) => w,
        None => 0,
    }
}

/// Whether a reading is complete enough to count as an observation.
pub open spec fn is_observation(ap: ApReading) -> bool {
    ap.ssid is Some && ap.strength is Some
}

/// `bss` is the observation that a reading stands for.
pub open spec fn observes(ap: ApReading, bss: BssView) -> bool {
    &&& is_observation(ap)
    &&& bss.ssid == ap.ssid->0@
    &&& bss.security == nm_security(
        flags_or_none(ap.flags),
        flags_or_none(ap.wpa_flags),
        flags_or_none(ap.rsn_flags),
    )
    &&& bss.rssi_dbm is None
    &&& bss.quality == ap.strength->0
    &&& bssid_reading(ap.hw_address, bss.bssid)
    &&& bss.frequency_mhz == ap.frequency
}

/// The observation that a reading stands for. An access point that disappeared
/// before its SSID and strength were read is none.
fn observation(ap: ApReading) -> (r: Option<RawBss>)
    ensures
        r is Some <==> is_observation(ap),
        r matches Some(bss) ==> observes(ap, bss@),
{
    match (ap.ssid, ap.strength) {
        (Some(ssid), Some(strength)) => {
            let bssid = match &ap.hw_address {
                Some(s) => parse_bssid(s.as_str()),
                None => None,
            };
            Some(
                RawBss {
                    ssid: Ssid::from_bytes(ssid),
                    security: security_from_nm_flags(
                        ap.flags.unwrap_or(0),
                        ap.wpa_flags.unwrap_or(0),
                        ap.rsn_flags.unwrap_or(0),
                    ),
                    rssi_dbm: None,
                    quality: strength,
                    bssid,
                    frequency_mhz: ap.frequency,
                },
            )
        },
        _ => None,
    }
}

/// The indices of the readings that count as observations, in order.
pub open spec fn observation_indices(aps: Seq<ApReading>) -> Seq<int>
    decreases aps.len(),
{
    if aps.len() == 0 {
        seq![]
    } else {
        let before = observation_indices(aps.drop_last());
        if is_observation(aps.last()) {
            before.push(aps.len() - 1)
        } else {
            before
        }
    }
}

/// No observation is lost, repeated or moved.
pub proof fn observations_keep_their_order(aps: Seq<ApReading>)
    ensures
        forall|k: int|
            0 <= k < observation_indices(aps).len() ==> 0 <= #[trigger] observation_indices(aps)[k]
                < aps.len() && is_observation(aps[observation_indices(aps)[k]]),
        forall|k: int, m: int|
            0 <= k < m < observation_indices(aps).len() ==> #[trigger] observation_indices(aps)[k]
                < #[trigger] observation_indices(aps)[m],
        forall|i: int|
            0 <= i < aps.len() && is_observation(#[trigger] aps[i]) ==> observation_indices(
                aps,
            ).contains(i),
    decreases aps.len(),
{
    if aps.len() > 0 {
        let rest = aps.drop_last();
        let before = observation_indices(rest);
        let now = observation_indices(aps);
        observations_keep_their_order(rest);
        assert forall|k: int| 0 <= k < now.len() implies 0 <= #[trigger] now[k] < aps.len()
            && is_observation(aps[now[k]]) by {
            if k < before.len() {
                assert(now[k] == before[k]);
                assert(rest[before[k]] == aps[now[k]]);
            }
        }
        assert forall|k: int, m: int| 0 <= k < m < now.len() implies #[trigger] now[k]
            < #[trigger] now[m] by {
            assert(now[k] == before[k]);
            if m < before.len() {
                assert(now[m] == before[m]);
            }
        }
        assert forall|i: int| 0 <= i < aps.len() && is_observation(#[trigger] aps[i]) implies now.contains(
            i,
        ) by {
            if i < rest.len() {
                assert(rest[i] == aps[i]);
                let k = choose|k: int| 0 <= k < before.len() && before[k] == i;
                assert(now[k] == i);
            } else {
                assert(now[before.len() as int] == i);
            }
        }
    }
}

/// The per-BSS observations among the access points of a device, in order.
/// Access points that disappeared meanwhile are skipped.
pub fn fetch_bsses(aps: Vec<ApReading>) -> (r: Vec<RawBss>)
    ensures
        r@.len() == observation_indices(aps@).len(),
        forall|k: int|
            0 <= k < r@.len() ==> observes(
                aps@[observation_indices(aps@)[k]],
                (#[trigger] r@[k])@,
            ),
{
    let ghost all = aps@;
    let mut out: Vec<RawBss> = Vec::new();
    for ap in it: aps
        invariant
            all == it.seq(),
            out@.len() == observation_indices(all.take(it.index() as int)).len(),
            forall|k: int|
                0 <= k < out@.len() ==> observes(
                    all[observation_indices(all.take(it.index() as int))[k]],
                    (#[trigger] out@[k])@,
                ),
    {
        let ghost n = it.index() as int;
        assert(all.take(n + 1).drop_last() =~= all.take(n));
        if let Some(bss) = observation(ap) {
            out.push(bss);
        }
    }
    assert(all.take(all.len() as int) =~= all);
    out
}

/// What was read about the connection of a device; `None` where a read failed
/// or was not possible.
#[derive(Debug)]
pub struct ActiveReading {
    /// Object path of the active connection.
    pub active: Option<String>,
    /// Object path of the access point that it uses.
    pub specific: Option<String>,
    /// The SSID of that access point.
    pub ssid: Option<Vec<u8>>,
}

/// An object path that stands for an object; `"/"` stands for none.
pub open spec fn is_object(path: Option<String>) -> bool {
    path is Some && path->0@ != "/"@
}

/// The SSID that a device is connected to, if every step to it could be read.
pub open spec fn connected_reading(reading: ActiveReading) -> Option<Seq<u8>> {
    if is_object(reading.active) && is_object(reading.specific) && reading.ssid is Some
        && reading.ssid->0@.len() > 0 {
        Some(reading.ssid->0@)
    } else {
        None
    }
}

fn names_object(path: &Option<String>) -> (r: bool)
    ensures
        r == is_object(*path),
{
    match path {
        Some(p) => !same_text(p.as_str(), "/"),
        None => false,
    }
}

/// Resolve the SSID of an active connection's access point. Returns `None` if any
/// leg of the resolution failed: not currently connected on this adapter.
pub fn connected_ssid_from_active(reading: ActiveReading) -> (r: Option<Ssid>)
    ensures
        optional_ssid(r) == connected_reading(reading),
{
    if !names_object(&reading.active) || !names_object(&reading.specific) {
        return None;
    }
    match reading.ssid {
        Some(bytes) => {
            if bytes.is_empty() {
                None
            } else {
                Some(Ssid::from_bytes(bytes))
            }
        },
        None => None,
    }
}

/// What was read about a saved connection profile.
#[derive(Debug)]
pub enum SavedProfile {
    /// There is no access to the profile at all.
    Unreachable(Error),
    Read {
        /// `type` in the `connection` section, if there is one.
        connection_type: Option<String>,
        /// `ssid` in the `802-11-wireless` section, if there is one.
        ssid: Option<Vec<u8>>,
    },
}

/// The SSID that a saved profile contributes: that of a Wi-Fi profile, unless it
/// is empty.
pub open spec fn saved_ssid(profile: SavedProfile) -> Option<Seq<u8>> {
    match profile {
        SavedProfile::Read { connection_type: Some(ty), ssid: Some(bytes) } => if ty@
            == "802-11-wireless"@ && bytes@.len() > 0 {
            Some(bytes@)
        } else {
            None
        },
        _ => None,
    }
}

/// The SSIDs of saved Wi-Fi profiles.
pub open spec fn saved_ssids(profiles: Seq<SavedProfile>) -> Set<Seq<u8>> {
    Set::new(
        |s: Seq<u8>| exists|i: int| 0 <= i < profiles.len() && saved_ssid(#[trigger] profiles[i]) == Some(s),
    )
}

/// The error of the first profile that could not be reached, if there is one.
pub open spec fn first_unreachable(profiles: Seq<SavedProfile>) -> Option<ErrorView>
    decreases profiles.len(),
{
    if profiles.len() == 0 {
        None
    } else {
        match first_unreachable(profiles.drop_last()) {
            Some(e) => Some(e),
            None => match profiles.last() {
                SavedProfile::Unreachable(e) => Some(e@),
                _ => None,
            },
        }
    }
}

proof fn lemma_unreachable_early(profiles: Seq<SavedProfile>, n: int)
    requires
        0 <= n <= profiles.len(),
        first_unreachable(profiles.take(n)) is Some,
    ensures
        first_unreachable(profiles) == first_unreachable(profiles.take(n)),
    decreases profiles.len(),
{
    if n == profiles.len() {
        assert(profiles.take(n) =~= profiles);
    } else {
        assert(profiles.drop_last().take(n) =~= profiles.take(n));
        lemma_unreachable_early(profiles.drop_last(), n);
    }
}

/// Collect the SSIDs of the saved profiles whose type is Wi-Fi, unless one of
/// them could not be reached.
pub fn saved_wifi_ssids(profiles: Vec<SavedProfile>) -> (r: Result<SsidSet, Error>)
    ensures
        failure(r) == first_unreachable(profiles@),
        r matches Ok(set) ==> set@ == saved_ssids(profiles@),
{
    let ghost all = profiles@;
    let mut out = SsidSet::new();
    assert(out@ =~= saved_ssids(all.take(0)));
    for profile in it: profiles
        invariant
            all == it.seq(),
            out@ == saved_ssids(all.take(it.index() as int)),
            first_unreachable(all.take(it.index() as int)) is None,
    {
        let ghost n = it.index() as int;
        let ghost before = all.take(n);
        let ghost after = all.take(n + 1);
        assert(after.drop_last() =~= before);
        proof {
            assert forall|s: Seq<u8>| saved_ssids(after).contains(s) <==> (saved_ssids(
                before,
            ).contains(s) || saved_ssid(profile) == Some(s)) by {
                if saved_ssids(after).contains(s) {
                    let i = choose|i: int|
                        0 <= i < after.len() && saved_ssid(#[trigger] after[i]) == Some(s);
                    if i < n {
                        assert(before[i] == after[i]);
                    }
                }
                if saved_ssids(before).contains(s) {
                    let i = choose|i: int|
                        0 <= i < before.len() && saved_ssid(#[trigger] before[i]) == Some(s);
                    assert(after[i] == before[i]);
                }
                if saved_ssid(profile) == Some(s) {
                    assert(after[n] == profile);
                }
            }
        }
        match profile {
            SavedProfile::Unreachable(e) => {
                proof {
                    lemma_unreachable_early(all, n + 1);
                }
                return Err(e);
            },
            SavedProfile::Read { connection_type: Some(ty), ssid: Some(bytes) } => {
                if same_text(ty.as_str(), "802-11-wireless") && !bytes.is_empty() {
                    let _new = out.insert(Ssid::from_bytes(bytes));
                }
            },
            _ => {},
        }
        assert(out@ =~= saved_ssids(after));
    }
    assert(all.take(all.len() as int) =~= all);
    Ok(out)
}

/// Build the per-adapter `ScanContext`: the connected SSID and the saved ones.
/// Saved profiles that could not be listed or reached count as none.
pub fn fetch_scan_context(
    reading: ActiveReading,
    profiles: Result<Vec<SavedProfile>, Error>,
) -> (r: ScanContext)
    ensures
        r@.connected == connected_reading(reading),
        r@.saved == (match profiles {
            Ok(list) => if first_unreachable(list@) is None {
                saved_ssids(list@)
            } else {
                Set::empty()
            },
            Err(_) => Set::empty(),
        }),
{
    let saved = match profiles {
        Ok(list) => match saved_wifi_ssids(list) {
            Ok(set) => set,
            Err(_) => SsidSet::new(),
        },
        Err(_) => SsidSet::new(),
    };
    ScanContext { connected_ssid: connected_ssid_from_active(reading), saved_ssids: saved }
}

/// What a saved profile means for the search for an SSID.
pub open spec fn profile_verdict(profile: SavedProfile, ssid: Seq<u8>) -> VerdictView {
    match profile {
        SavedProfile::Unreachable(e) => VerdictView::Fail(e@),
        SavedProfile::Read { connection_type, ssid: Some(bytes) } => if bytes@ == ssid {
            VerdictView::Match
        } else {
            VerdictView::Skip
        },
        _ => VerdictView::Skip,
    }
}

/// What each saved profile means for the search for an SSID.
pub open spec fn profile_verdicts(profiles: Seq<SavedProfile>, ssid: Seq<u8>) -> Seq<VerdictView> {
    profiles.map_values(|p: SavedProfile| profile_verdict(p, ssid))
}

fn judge_profile(profile: SavedProfile, ssid: &Ssid) -> (r: Verdict)
    ensures
        r@ == profile_verdict(profile, ssid@),
{
    match profile {
        SavedProfile::Unreachable(e) => Verdict::Fail(e),
        SavedProfile::Read { connection_type: _, ssid: Some(bytes) } => {
            if Ssid::from_bytes(bytes).same_as(ssid) {
                Verdict::Match
            } else {
                Verdict::Skip
            }
        },
        _ => Verdict::Skip,
    }
}

/// Finds the first saved profile with that SSID.
pub fn find_profile(profiles: Vec<SavedProfile>, ssid: &Ssid) -> (r: Found)
    ensures
        r@ == search(profile_verdicts(profiles@, ssid@)),
        r matches Found::At(i) ==> i < profiles@.len(),
{
    let ghost wanted = profile_verdicts(profiles@, ssid@);
    let count: usize = profiles.len();
    let mut verdicts: Vec<Verdict> = Vec::new();
    for profile in it: profiles
        invariant
            wanted == profile_verdicts(it.seq(), ssid@),
            it.seq().len() == count,
            verdict_views(verdicts@) =~= wanted.take(it.index() as int),
    {
        let ghost was = verdicts@;
        let v = judge_profile(profile, ssid);
        verdicts.push(v);
        assert(verdict_views(verdicts@) =~= verdict_views(was).push(v@));
    }
    assert(wanted.take(wanted.len() as int) =~= wanted);
    proof {
        crate::search::lemma_found_in_range(wanted);
    }
    first_settled(verdicts)
}

/// The saved profile that a search for an SSID finds was read with exactly those
/// octets, and no profile before it was, nor was any of those out of reach. It
/// finds none only when every profile was reached and none has the octets, and it
/// fails with the error of the first profile out of reach, if none before that
/// one has the octets.
pub proof fn profiles_are_found_by_their_octets(profiles: Seq<SavedProfile>, ssid: Seq<u8>)
    ensures
        match search(profile_verdicts(profiles, ssid)) {
            FoundView::At(i) => {
                &&& 0 <= i < profiles.len()
                &&& profiles[i] is Read && profiles[i]->ssid is Some && profiles[i]->ssid->0@ == ssid
                &&& forall|k: int|
                    0 <= k < i ==> (#[trigger] profiles[k]) is Read && !(profiles[k]->ssid is Some
                        && profiles[k]->ssid->0@ == ssid)
            },
            FoundView::Nowhere => forall|k: int|
                0 <= k < profiles.len() ==> (#[trigger] profiles[k]) is Read && !(
                profiles[k]->ssid is Some && profiles[k]->ssid->0@ == ssid),
            FoundView::Failed(e) => exists|i: int|
                0 <= i < profiles.len() && (#[trigger] profiles[i]) is Unreachable
                    && profiles[i]->Unreachable_0@ == e && forall|k: int|
                    0 <= k < i ==> (#[trigger] profiles[k]) is Read && !(profiles[k]->ssid is Some
                        && profiles[k]->ssid->0@ == ssid),
        },
{
    let verdicts = profile_verdicts(profiles, ssid);
    assert(forall|k: int|
        0 <= k < profiles.len() ==> verdicts[k] == profile_verdict(#[trigger] profiles[k], ssid));
    match search(verdicts) {
        FoundView::At(i) => {
            search_finds_the_first_match(verdicts, i);
            assert forall|k: int| 0 <= k < i implies (#[trigger] profiles[k]) is Read && !(
            profiles[k]->ssid is Some && profiles[k]->ssid->0@ == ssid) by {
                assert(verdicts[k] is Skip);
            }
        },
        FoundView::Nowhere => {
            search_finds_the_first_match(verdicts, 0);
            assert forall|k: int| 0 <= k < profiles.len() implies (#[trigger] profiles[k]) is Read
                && !(profiles[k]->ssid is Some && profiles[k]->ssid->0@ == ssid) by {
                assert(verdicts[k] is Skip);
            }
        },
        FoundView::Failed(e) => {
            search_fails_at_the_first_failure(verdicts, e);
            let i = choose|i: int|
                0 <= i < verdicts.len() && verdicts[i] == VerdictView::Fail(e) && forall|k: int|
                    0 <= k < i ==> verdicts[k] is Skip;
            assert(profiles[i] is Unreachable);
            assert forall|k: int| 0 <= k < i implies (#[trigger] profiles[k]) is Read && !(
            profiles[k]->ssid is Some && profiles[k]->ssid->0@ == ssid) by {
                assert(verdicts[k] is Skip);
            }
        },
    }
}

/// Each mode of an access point is set exactly when a flag word has one of its
/// bits; it is WEP or open exactly when no such bit is set, by the privacy bit.
pub proof fn nm_security_goes_by_the_bits(flags: u32, wpa_flags: u32, rsn_flags: u32)
    ensures
        ({
            let modes = nm_security(flags, wpa_flags, rsn_flags);
            let secured = wpa_flags & 0x100 != 0 || wpa_flags & 0x200 != 0 || rsn_flags & 0x100 != 0
                || rsn_flags & 0x200 != 0 || rsn_flags & 0x400 != 0 || rsn_flags & 0x800 != 0
                || rsn_flags & 0x1000 != 0 || rsn_flags & 0x2000 != 0 || rsn_flags & 0x4000 != 0;
            &&& modes.wpa_psk <==> wpa_flags & 0x100 != 0
            &&& modes.wpa2_psk <==> rsn_flags & 0x100 != 0
            &&& modes.wpa2_enterprise <==> wpa_flags & 0x200 != 0 || rsn_flags & 0x200 != 0
            &&& modes.wpa3_sae <==> rsn_flags & 0x400 != 0
            &&& modes.owe <==> rsn_flags & 0x800 != 0 || rsn_flags & 0x1000 != 0
            &&& modes.wpa3_enterprise <==> rsn_flags & 0x2000 != 0 || rsn_flags & 0x4000 != 0
            &&& modes.wep <==> !secured && flags & 1 != 0
            &&& modes.open <==> !secured && flags & 1 == 0
        }),
{
}

/// An observation says what was read of the access point: its octets, its strength
/// as the quality, its frequency, and no strength in dBm.
pub proof fn observations_say_what_was_read(ap: ApReading, bss: BssView)
    requires
        observes(ap, bss),
    ensures
        ap.ssid is Some && bss.ssid == ap.ssid->0@,
        ap.strength is Some && bss.quality == ap.strength->0,
        bss.frequency_mhz == ap.frequency,
        bss.rssi_dbm is None,
        bssid_reading(ap.hw_address, bss.bssid),
        bss.security == nm_security(
            if ap.flags is Some { ap.flags->0 } else { 0 },
            if ap.wpa_flags is Some { ap.wpa_flags->0 } else { 0 },
            if ap.rsn_flags is Some { ap.rsn_flags->0 } else { 0 },
        ),
{
}

/// The access points that count are those of which SSID and strength were read,
/// in the order of the list.
pub proof fn readings_with_ssid_and_strength_count(aps: Seq<ApReading>)
    ensures
        observation_indices(aps) == Seq::new(aps.len(), |i: int| i).filter(
            |i: int| aps[i].ssid is Some && aps[i].strength is Some,
        ),
    decreases aps.len(),
{
    reveal(Seq::filter);
    let all = Seq::new(aps.len(), |i: int| i);
    let counts = |i: int| aps[i].ssid is Some && aps[i].strength is Some;
    if aps.len() > 0 {
        let rest = aps.drop_last();
        let some = Seq::new(rest.len(), |i: int| i);
        let rest_counts = |i: int| rest[i].ssid is Some && rest[i].strength is Some;
        readings_with_ssid_and_strength_count(rest);
        assert(all.drop_last() =~= some);
        lemma_filter_agrees(some, rest_counts, counts);
    }
}

proof fn lemma_filter_agrees(s: Seq<int>, p: spec_fn(int) -> bool, q: spec_fn(int) -> bool)
    requires
        forall|k: int| 0 <= k < s.len() ==> p(#[trigger] s[k]) == q(s[k]),
    ensures
        s.filter(p) == s.filter(q),
    decreases s.len(),
{
    reveal(Seq::filter);
    if s.len() > 0 {
        let rest = s.drop_last();
        assert forall|k: int| 0 <= k < rest.len() implies p(#[trigger] rest[k]) == q(rest[k]) by {
            assert(rest[k] == s[k]);
        }
        lemma_filter_agrees(rest, p, q);
        assert(p(s[s.len() - 1]) == q(s[s.len() - 1]));
    }
}

/// A device counts as connected exactly when its connection and the access point
/// of that are objects and the access point has an SSID that is not empty; it is
/// that SSID.
pub proof fn connected_means_every_step_was_read(reading: ActiveReading, ssid: Seq<u8>)
    ensures
        connected_reading(reading) == Some(ssid) <==> {
            &&& reading.active is Some && reading.active->0@ != "/"@
            &&& reading.specific is Some && reading.specific->0@ != "/"@
            &&& reading.ssid is Some && reading.ssid->0@ == ssid
            &&& ssid.len() > 0
        },
{
}

/// An SSID counts as saved exactly when it is not empty and a profile of the
/// Wi-Fi type was read with those octets.
pub proof fn saved_means_a_wifi_profile(profiles: Seq<SavedProfile>, ssid: Seq<u8>)
    ensures
        saved_ssids(profiles).contains(ssid) <==> ssid.len() > 0 && exists|i: int|
            0 <= i < profiles.len() && (#[trigger] profiles[i]) is Read
                && profiles[i]->connection_type is Some && profiles[i]->connection_type->0@
                == "802-11-wireless"@ && profiles[i]->ssid is Some && profiles[i]->ssid->0@ == ssid,
{
    if saved_ssids(profiles).contains(ssid) {
        let i = choose|i: int| 0 <= i < profiles.len() && saved_ssid(#[trigger] profiles[i]) == Some(ssid);
        assert(profiles[i] is Read);
    }
    if exists|i: int|
        0 <= i < profiles.len() && (#[trigger] profiles[i]) is Read && profiles[i]->connection_type
            is Some && profiles[i]->connection_type->0@ == "802-11-wireless"@ && profiles[i]->ssid
            is Some && profiles[i]->ssid->0@ == ssid {
        let i = choose|i: int|
            0 <= i < profiles.len() && (#[trigger] profiles[i]) is Read
                && profiles[i]->connection_type is Some && profiles[i]->connection_type->0@
                == "802-11-wireless"@ && profiles[i]->ssid is Some && profiles[i]->ssid->0@ == ssid;
        if ssid.len() > 0 {
            assert(saved_ssid(profiles[i]) == Some(ssid));
        }
    }
}

/// The saved profiles can be collected exactly when each of them was reached; else
/// the error is that of the first that was not.
pub proof fn the_first_unreachable_profile_fails(profiles: Seq<SavedProfile>)
    ensures
        first_unreachable(profiles) is None <==> forall|k: int|
            0 <= k < profiles.len() ==> (#[trigger] profiles[k]) is Read,
        first_unreachable(profiles) matches Some(e) ==> exists|i: int|
            0 <= i < profiles.len() && (#[trigger] profiles[i]) is Unreachable
                && profiles[i]->Unreachable_0@ == e && forall|k: int|
                0 <= k < i ==> (#[trigger] profiles[k]) is Read,
    decreases profiles.len(),
{
    if profiles.len() > 0 {
        let rest = profiles.drop_last();
        let last = profiles.len() - 1;
        the_first_unreachable_profile_fails(rest);
        assert(forall|k: int| 0 <= k < rest.len() ==> (#[trigger] rest[k]) == profiles[k]);
        match first_unreachable(rest) {
            Some(e) => {
                let i = choose|i: int|
                    0 <= i < rest.len() && (#[trigger] rest[i]) is Unreachable
                        && rest[i]->Unreachable_0@ == e && forall|k: int|
                        0 <= k < i ==> (#[trigger] rest[k]) is Read;
                assert(profiles[i] is Unreachable);
                assert forall|k: int| 0 <= k < i implies (#[trigger] profiles[k]) is Read by {
                    assert(rest[k] is Read);
                }
            },
            None => {
                assert forall|k: int| 0 <= k < last implies (#[trigger] profiles[k]) is Read by {
                    assert(rest[k] is Read);
                }
                if profiles[last] is Read {
                    assert(forall|k: int|
                        0 <= k < profiles.len() ==> (#[trigger] profiles[k]) is Read);
                } else {
                    assert(profiles[last] is Unreachable);
                }
            },
        }
    }
}

} // verus!
