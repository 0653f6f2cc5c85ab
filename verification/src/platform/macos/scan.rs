//! What `CoreWLAN` reports about networks.

use vstd::prelude::*;

use crate::bssid::{bssid_reading, parse_bssid};
use crate::error::{failure, Error, NsErrorWrapper};
use crate::flags::{no_flags, SecurityFlags};
use crate::platform::macos::error::{map_scan_nserror_to_error, scan_error};
use crate::scan_rollup::{quality_from_dbm, quality_of, BssView, RawBss, ScanContext};
use crate::types::{Ssid, SsidSet};

verus! {

broadcast use vstd::string::group_string_axioms;

// CWSecurity, see CoreWLANTypes.h.
pub const CW_SECURITY_NONE: i64 = 0;
pub const CW_SECURITY_WEP: i64 = 1;
pub const CW_SECURITY_WPA_PERSONAL: i64 = 2;
pub const CW_SECURITY_WPA_PERSONAL_MIXED: i64 = 3;
pub const CW_SECURITY_WPA2_PERSONAL: i64 = 4;
/// Any personal mode.
pub const CW_SECURITY_PERSONAL: i64 = 5;
pub const CW_SECURITY_DYNAMIC_WEP: i64 = 6;
pub const CW_SECURITY_WPA_ENTERPRISE: i64 = 7;
pub const CW_SECURITY_WPA_ENTERPRISE_MIXED: i64 = 8;
pub const CW_SECURITY_WPA2_ENTERPRISE: i64 = 9;
/// Any enterprise mode.
pub const CW_SECURITY_ENTERPRISE: i64 = 10;
pub const CW_SECURITY_WPA3_PERSONAL: i64 = 11;
pub const CW_SECURITY_WPA3_ENTERPRISE: i64 = 12;
pub const CW_SECURITY_WPA3_TRANSITION: i64 = 13;
pub const CW_SECURITY_OWE: i64 = 14;
pub const CW_SECURITY_OWE_TRANSITION: i64 = 15;

// CWChannelBand, see CoreWLANTypes.h.
pub const CW_CHANNEL_BAND_UNKNOWN: i64 = 0;
pub const CW_CHANNEL_BAND_2GHZ: i64 = 1;
pub const CW_CHANNEL_BAND_5GHZ: i64 = 2;
pub const CW_CHANNEL_BAND_6GHZ: i64 = 3;

/// The modes that one `CWSecurity` value stands for. The generic value for
/// personal networks and the transition mode stand for several; values that are
/// not known for none.
pub open spec fn cw_security(value: i64) -> SecurityFlags {
    SecurityFlags {
        open: value == CW_SECURITY_NONE,
        wep: value == CW_SECURITY_WEP || value == CW_SECURITY_DYNAMIC_WEP,
        wpa_psk: value == CW_SECURITY_WPA_PERSONAL || value == CW_SECURITY_WPA_PERSONAL_MIXED
            || value == CW_SECURITY_PERSONAL,
        wpa2_psk: value == CW_SECURITY_WPA2_PERSONAL || value == CW_SECURITY_PERSONAL || value
            == CW_SECURITY_WPA3_TRANSITION,
        wpa3_sae: value == CW_SECURITY_WPA3_PERSONAL || value == CW_SECURITY_PERSONAL || value
            == CW_SECURITY_WPA3_TRANSITION,
        wpa2_enterprise: value == CW_SECURITY_WPA_ENTERPRISE || value
            == CW_SECURITY_WPA_ENTERPRISE_MIXED || value == CW_SECURITY_WPA2_ENTERPRISE || value
            == CW_SECURITY_ENTERPRISE,
        wpa3_enterprise: value == CW_SECURITY_WPA3_ENTERPRISE,
        owe: value == CW_SECURITY_OWE || value == CW_SECURITY_OWE_TRANSITION,
    }
}

/// All modes that the values stand for.
pub open spec fn union_of(observed: Seq<i64>) -> SecurityFlags
    decreases observed.len(),
{
    if observed.len() == 0 {
        no_flags()
    } else {
        union_of(observed.drop_last()).either(cw_security(observed.last()))
    }
}

/// The modes of a network. One that uses OWE does not count as open: the access
/// point encrypts without setting the privacy bit.
pub open spec fn cw_set_security(observed: Seq<i64>) -> SecurityFlags {
    let all = union_of(observed);
    SecurityFlags { open: all.open && !all.owe, ..all }
}

fn security_of_value(value: i64) -> (r: SecurityFlags)
    ensures
        r == cw_security(value),
{
    match value {
        CW_SECURITY_NONE => SecurityFlags::open(),
        CW_SECURITY_WEP | CW_SECURITY_DYNAMIC_WEP => SecurityFlags::wep(),
        CW_SECURITY_WPA_PERSONAL | CW_SECURITY_WPA_PERSONAL_MIXED => SecurityFlags::wpa_psk(),
        CW_SECURITY_WPA2_PERSONAL => SecurityFlags::wpa2_psk(),
        CW_SECURITY_PERSONAL => SecurityFlags::wpa_psk().union(SecurityFlags::wpa2_psk()).union(
            SecurityFlags::wpa3_sae(),
        ),
        CW_SECURITY_WPA3_PERSONAL => SecurityFlags::wpa3_sae(),
        CW_SECURITY_WPA3_TRANSITION => SecurityFlags::wpa2_psk().union(SecurityFlags::wpa3_sae()),
        CW_SECURITY_WPA_ENTERPRISE
        | CW_SECURITY_WPA_ENTERPRISE_MIXED
        | CW_SECURITY_WPA2_ENTERPRISE
        | CW_SECURITY_ENTERPRISE => SecurityFlags::wpa2_enterprise(),
        CW_SECURITY_WPA3_ENTERPRISE => SecurityFlags::wpa3_enterprise(),
        CW_SECURITY_OWE | CW_SECURITY_OWE_TRANSITION => SecurityFlags::owe(),
        _ => SecurityFlags::empty(),
    }
}

/// Translate a list of supported `CWSecurity` values from a single
/// network to our portable [`SecurityFlags`].
pub fn security_from_cw_set(observed: &Vec<i64>) -> (r: SecurityFlags)
    ensures
        r == cw_set_security(observed@),
{
    let mut out = SecurityFlags::empty();
    let mut i: usize = 0;
    while i < observed.len()
        invariant
            i <= observed@.len(),
            out == union_of(observed@.take(i as int)),
        decreases observed@.len() - i,
    {
        assert(observed@.take(i + 1).drop_last() =~= observed@.take(i as int));
        out.insert(security_of_value(observed[i]));
        i = i + 1;
    }
    assert(observed@.take(observed@.len() as int) =~= observed@);
    if out.owe {
        out.remove(SecurityFlags::open());
    }
    out
}

/// A network never counts both as open and as OWE, and one is OWE exactly if it
/// was observed so.
pub proof fn owe_excludes_open(observed: Seq<i64>)
    ensures
        !(cw_set_security(observed).open && cw_set_security(observed).owe),
        cw_set_security(observed).owe <==> observed.contains(CW_SECURITY_OWE)
            || observed.contains(CW_SECURITY_OWE_TRANSITION),
    decreases observed.len(),
{
    if observed.len() > 0 {
        let rest = observed.drop_last();
        owe_excludes_open(rest);
        assert(observed =~= rest.push(observed.last()));
        assert(forall|v: i64| #[trigger]
            observed.contains(v) <==> rest.contains(v) || v == observed.last()) by {
            assert forall|v: i64| #[trigger]
                observed.contains(v) <==> rest.contains(v) || v == observed.last() by {
                if rest.contains(v) {
                    let k = choose|k: int| 0 <= k < rest.len() && rest[k] == v;
                    assert(observed[k] == v);
                }
                if observed.contains(v) {
                    let k = choose|k: int| 0 <= k < observed.len() && observed[k] == v;
                    if k < rest.len() {
                        assert(rest[k] == v);
                    }
                }
                assert(observed[observed.len() - 1] == observed.last());
            }
        }
    }
}

/// The indices at which the answer is yes, in order.
pub open spec fn answered_yes(answers: Seq<bool>) -> Seq<i64>
    decreases answers.len(),
{
    if answers.len() == 0 {
        seq![]
    } else {
        let before = answered_yes(answers.drop_last());
        if answers.last() {
            before.push((answers.len() - 1) as i64)
        } else {
            before
        }
    }
}

/// The `CWSecurity` values that a network supports, from what `supportsSecurity:`
/// answered for each value from the first to the last known one.
pub fn observed_security(answers: [bool; 16]) -> (r: Vec<i64>)
    ensures
        r@ == answered_yes(answers@),
{
    let mut out: Vec<i64> = Vec::new();
    let mut value: i64 = CW_SECURITY_NONE;
    while value <= CW_SECURITY_OWE_TRANSITION
        invariant
            0 <= value <= 16,
            out@ == answered_yes(answers@.take(value as int)),
        decreases 16 - value,
    {
        assert(answers@.take(value + 1).drop_last() =~= answers@.take(value as int));
        if answers[value as usize] {
            out.push(value);
        }
        value = value + 1;
    }
    assert(answers@.take(16) =~= answers@);
    out
}

/// The frequency of a channel in MHz: channel 14 of the 2.4 GHz band lies apart
/// from the others.
pub open spec fn frequency_of(channel: int, band: i64) -> Option<int> {
    if channel < 0 || channel > u32::MAX {
        None
    } else if band == CW_CHANNEL_BAND_2GHZ {
        Some(
            if channel == 14 {
                2484
            } else {
                2407 + 5 * channel
            },
        )
    } else if band == CW_CHANNEL_BAND_5GHZ {
        Some(5000 + 5 * channel)
    } else if band == CW_CHANNEL_BAND_6GHZ {
        Some(5950 + 5 * channel)
    } else {
        None
    }
}

/// Whether the frequency of a channel can be held; it can of every channel that
/// exists.
pub open spec fn frequency_fits(channel: int, band: i64) -> bool {
    frequency_of(channel, band) matches Some(mhz) ==> mhz <= u32::MAX
}

/// Whether the frequency of a channel can be held.
pub fn can_hold_frequency(channel: i64, band: i64) -> (r: bool)
    ensures
        r == frequency_fits(channel as int, band),
{
    if channel < 0 || channel > 0xffff_ffff {
        return true;
    }
    let base: i64 = match band {
        CW_CHANNEL_BAND_2GHZ => 2407,
        CW_CHANNEL_BAND_5GHZ => 5000,
        CW_CHANNEL_BAND_6GHZ => 5950,
        _ => {
            return true;
        },
    };
    base + 5 * channel <= 0xffff_ffff
}

/// Convert a `CoreWLAN` (`channelNumber`, `channelBand`) pair to MHz.
///
/// Returns `None` when the channel number is negative or too large, or when the
/// band is unknown — rather than a misleading `Some(0)`.
pub fn channel_to_mhz(channel: i64, band: i64) -> (r: Option<u32>)
    requires
        frequency_fits(channel as int, band),
    ensures
        frequency_of(channel as int, band) == (match r {
            Some(mhz) => Some(mhz as int),
            None => None,
        }),
{
    if channel < 0 || channel > 0xffff_ffff {
        return None;
    }
    let channel: u32 = channel as u32;
    match band {
        CW_CHANNEL_BAND_2GHZ => {
            if channel == 14 {
                Some(2484)
            } else {
                Some(2407 + 5 * channel)
            }
        },
        CW_CHANNEL_BAND_5GHZ => Some(5000 + 5 * channel),
        CW_CHANNEL_BAND_6GHZ => Some(5950 + 5 * channel),
        _ => None,
    }
}

/// A channel, as `CWChannel` describes it.
#[derive(Debug, Clone, Copy)]
pub struct CwChannel {
    /// `channelNumber`.
    pub number: i64,
    /// `channelBand`.
    pub band: i64,
}

/// A network, as `CWNetwork` describes it.
#[derive(Debug)]
pub struct CwNetwork {
    /// `ssidData`, unless it is nil.
    pub ssid_data: Option<Vec<u8>>,
    /// `rssiValue`.
    pub rssi: i64,
    /// `bssid`, unless it is nil.
    pub bssid: Option<String>,
    /// `wlanChannel`, unless it is nil.
    pub channel: Option<CwChannel>,
    /// What `supportsSecurity:` answers for each known `CWSecurity` value.
    pub supports: [bool; 16],
}

/// Whether the frequency of a network can be held.
pub open spec fn network_fits(network: CwNetwork) -> bool {
    network.channel matches Some(ch) ==> frequency_fits(ch.number as int, ch.band)
}

/// The signal strength of a network. `CoreWLAN` reports zero for cached entries
/// without a valid measurement: that is unknown, not a perfect signal.
pub open spec fn signal_of(rssi: i64) -> Option<i16> {
    if rssi as i16 == 0 {
        None
    } else {
        Some(rssi as i16)
    }
}

/// `bss` is the observation that a network stands for.
pub open spec fn observes(network: CwNetwork, bss: BssView) -> bool {
    &&& network.ssid_data is Some
    &&& bss.ssid == network.ssid_data->0@
    &&& bss.security == cw_set_security(answered_yes(network.supports@))
    &&& bss.rssi_dbm == signal_of(network.rssi)
    &&& bss.quality == (match signal_of(network.rssi) {
        Some(dbm) => quality_of(dbm as int),
        None => 0,
    })
    &&& bssid_reading(network.bssid, bss.bssid)
    &&& (match network.channel {
        Some(ch) => frequency_of(ch.number as int, ch.band),
        None => None,
    }) == (match bss.frequency_mhz {
        Some(mhz) => Some(mhz as int),
        None => None,
    })
}

fn observation(network: &CwNetwork) -> (r: Option<RawBss>)
    requires
        network_fits(*network),
    ensures
        r is Some <==> network.ssid_data is Some,
        r matches Some(bss) ==> observes(*network, bss@),
{
    match &network.ssid_data {
        None => None,
        Some(data) => {
            // The valid Wi-Fi RSSI range is [-127, 0], so nothing is lost in
            // practice.
            let rssi_raw: i16 = #[verifier::truncate]
            (network.rssi as i16);
            let rssi_dbm = if rssi_raw == 0 {
                None
            } else {
                Some(rssi_raw)
            };
            let quality: u8 = match rssi_dbm {
                Some(dbm) => quality_from_dbm(dbm),
                None => 0,
            };
            let bssid = match &network.bssid {
                Some(s) => parse_bssid(s.as_str()),
                None => None,
            };
            let frequency_mhz = match network.channel {
                Some(ch) => channel_to_mhz(ch.number, ch.band),
                None => None,
            };
            let security = security_from_cw_set(&observed_security(network.supports));
            Some(
                RawBss {
                    ssid: Ssid::from_bytes(data.clone()),
                    security,
                    rssi_dbm,
                    quality,
                    bssid,
                    frequency_mhz,
                },
            )
        },
    }
}

/// The networks that have an SSID.
pub open spec fn named_networks(networks: Seq<CwNetwork>) -> Seq<CwNetwork>
    decreases networks.len(),
{
    if networks.len() == 0 {
        seq![]
    } else {
        let before = named_networks(networks.drop_last());
        if networks.last().ssid_data is Some {
            before.push(networks.last())
        } else {
            before
        }
    }
}

/// `bsses` are the observations that the networks stand for, in their order.
pub open spec fn are_observations(networks: Seq<CwNetwork>, bsses: Seq<RawBss>) -> bool {
    &&& bsses.len() == named_networks(networks).len()
    &&& forall|k: int|
        0 <= k < bsses.len() ==> observes(named_networks(networks)[k], (#[trigger] bsses[k])@)
}

/// The observations of a scan: its networks (none where there are no cached
/// results), or the error it failed with.
///
/// # Errors
///
/// Returns `Error::PermissionDenied(_)` without Location Services, and
/// `Error::Os(_)` for any other failure.
pub fn fetch_bsses_blocking(scan: Result<Option<Vec<CwNetwork>>, NsErrorWrapper>) -> (r: Result<
    Vec<RawBss>,
    Error,
>)
    requires
        scan matches Ok(Some(networks)) ==> forall|k: int|
            0 <= k < networks@.len() ==> network_fits(#[trigger] networks@[k]),
    ensures
        match scan {
            Err(e) => failure(r) == Some(scan_error(e@)),
            Ok(None) => r is Ok && r->Ok_0@.len() == 0,
            Ok(Some(networks)) => r is Ok && are_observations(networks@, r->Ok_0@),
        },
{
    let networks = match scan {
        Err(e) => {
            return Err(map_scan_nserror_to_error(&e));
        },
        Ok(None) => {
            return Ok(Vec::new());
        },
        Ok(Some(networks)) => networks,
    };
    let mut out: Vec<RawBss> = Vec::new();
    let mut i: usize = 0;
    while i < networks.len()
        invariant
            forall|k: int| 0 <= k < networks@.len() ==> network_fits(#[trigger] networks@[k]),
            i <= networks@.len(),
            are_observations(networks@.take(i as int), out@),
        decreases networks@.len() - i,
    {
        assert(networks@.take(i + 1).drop_last() =~= networks@.take(i as int));
        if let Some(bss) = observation(&networks[i]) {
            out.push(bss);
        }
        i = i + 1;
    }
    assert(networks@.take(networks@.len() as int) =~= networks@);
    Ok(out)
}

/// A saved network profile: its SSID, unless it is nil, and whether the keychain
/// has an entry for it.
#[derive(Debug)]
pub struct ProfileReading {
    pub ssid_data: Option<Vec<u8>>,
    pub in_keychain: bool,
}

/// A profile that a connect with stored credentials can use.
pub open spec fn is_usable(profile: ProfileReading, ssid: Seq<u8>) -> bool {
    profile.in_keychain && profile.ssid_data is Some && profile.ssid_data->0@ == ssid
}

/// The scan context: the connected SSID, and the SSIDs of the profiles that
/// `connect_with_stored_credentials` will actually use.
pub fn fetch_scan_context_blocking(
    connected: Option<Vec<u8>>,
    profiles: &Vec<ProfileReading>,
) -> (r: ScanContext)
    ensures
        r@.connected == (match connected {
            Some(bytes) => Some(bytes@),
            None => None,
        }),
        forall|ssid: Seq<u8>| #[trigger]
            r@.saved.contains(ssid) <==> exists|k: int|
                0 <= k < profiles@.len() && is_usable(#[trigger] profiles@[k], ssid),
{
    let mut saved = SsidSet::new();
    let mut i: usize = 0;
    while i < profiles.len()
        invariant
            i <= profiles@.len(),
            forall|ssid: Seq<u8>| #[trigger]
                saved@.contains(ssid) <==> exists|k: int|
                    0 <= k < i && is_usable(#[trigger] profiles@[k], ssid),
        decreases profiles@.len() - i,
    {
        if profiles[i].in_keychain {
            if let Some(data) = &profiles[i].ssid_data {
                let _new = saved.insert(Ssid::from_bytes(data.clone()));
            }
        }
        i = i + 1;
    }
    let connected_ssid = match connected {
        Some(bytes) => Some(Ssid::from_bytes(bytes)),
        None => None,
    };
    ScanContext { connected_ssid, saved_ssids: saved }
}

proof fn lemma_union_members(observed: Seq<i64>)
    ensures
        union_of(observed).wep <==> observed.contains(1i64) || observed.contains(6i64),
        union_of(observed).wpa_psk <==> observed.contains(2i64) || observed.contains(3i64) || observed.contains(5i64),
        union_of(observed).wpa2_psk <==> observed.contains(4i64) || observed.contains(5i64) || observed.contains(13i64),
        union_of(observed).wpa3_sae <==> observed.contains(11i64) || observed.contains(5i64) || observed.contains(13i64),
        union_of(observed).wpa2_enterprise <==> observed.contains(7i64) || observed.contains(8i64) || observed.contains(9i64) || observed.contains(10i64),
        union_of(observed).wpa3_enterprise <==> observed.contains(12i64),
        union_of(observed).owe <==> observed.contains(14i64) || observed.contains(15i64),
        union_of(observed).open <==> observed.contains(0i64),
    decreases observed.len(),
{
    if observed.len() > 0 {
        let rest = observed.drop_last();
        lemma_union_members(rest);
        assert forall|v: i64| #[trigger]
            observed.contains(v) <==> rest.contains(v) || v == observed.last() by {
            if rest.contains(v) {
                let k = choose|k: int| 0 <= k < rest.len() && rest[k] == v;
                assert(observed[k] == v);
            }
            if observed.contains(v) {
                let k = choose|k: int| 0 <= k < observed.len() && observed[k] == v;
                if k < rest.len() {
                    assert(rest[k] == v);
                }
            }
            assert(observed[observed.len() - 1] == observed.last());
        }
    }
}

/// A network has a mode exactly when a value that stands for it was observed, and
/// is open exactly when that was observed and OWE was not.
pub proof fn modes_are_named_by_values(observed: Seq<i64>)
    ensures
        cw_set_security(observed).open <==> observed.contains(0i64) && !observed.contains(14i64)
            && !observed.contains(15i64),
        cw_set_security(observed).wep <==> observed.contains(1i64) || observed.contains(6i64),
        cw_set_security(observed).wpa_psk <==> observed.contains(2i64) || observed.contains(3i64) || observed.contains(5i64),
        cw_set_security(observed).wpa2_psk <==> observed.contains(4i64) || observed.contains(5i64) || observed.contains(13i64),
        cw_set_security(observed).wpa3_sae <==> observed.contains(11i64) || observed.contains(5i64) || observed.contains(13i64),
        cw_set_security(observed).wpa2_enterprise <==> observed.contains(7i64) || observed.contains(8i64) || observed.contains(9i64) || observed.contains(10i64),
        cw_set_security(observed).wpa3_enterprise <==> observed.contains(12i64),
        cw_set_security(observed).owe <==> observed.contains(14i64) || observed.contains(15i64),
{
    lemma_union_members(observed);
}

/// The values that a network supports are the indices at which the answer is yes,
/// from the smallest up.
pub proof fn supported_values_were_answered_yes(answers: Seq<bool>)
    requires
        answers.len() <= 16,
    ensures
        forall|v: i64| #[trigger]
            answered_yes(answers).contains(v) <==> 0 <= v < answers.len() && answers[v as int],
        forall|i: int, j: int|
            0 <= i < j < answered_yes(answers).len() ==> answered_yes(answers)[i]
                < answered_yes(answers)[j],
    decreases answers.len(),
{
    if answers.len() > 0 {
        let rest = answers.drop_last();
        let before = answered_yes(rest);
        let all = answered_yes(answers);
        supported_values_were_answered_yes(rest);
        assert(answers.last() == answers[answers.len() - 1]);
        assert forall|v: i64| #[trigger] all.contains(v) <==> 0 <= v < answers.len()
            && answers[v as int] by {
            if before.contains(v) {
                let k = choose|k: int| 0 <= k < before.len() && before[k] == v;
                assert(all[k] == v);
                assert(rest[v as int] == answers[v as int]);
            }
            if all.contains(v) {
                let k = choose|k: int| 0 <= k < all.len() && all[k] == v;
                if k < before.len() {
                    assert(before[k] == v);
                    assert(before.contains(v));
                }
            }
            if 0 <= v < answers.len() && answers[v as int] {
                if v < rest.len() {
                    assert(rest[v as int]);
                    assert(before.contains(v));
                } else {
                    assert(all[all.len() - 1] == v);
                }
            }
        }
        assert forall|i: int, j: int| 0 <= i < j < all.len() implies all[i] < all[j] by {
            if j < before.len() {
                assert(before[i] < before[j]);
            } else {
                assert(all[i] == before[i]);
                assert(before.contains(all[i]));
            }
        }
    }
}

/// A network has a mode exactly when it supports a value that stands for it.
pub proof fn modes_go_by_the_answers(answers: Seq<bool>)
    requires
        answers.len() == 16,
    ensures
        cw_set_security(answered_yes(answers)).open <==> answers[0] && !answers[14] && !answers[15],
        cw_set_security(answered_yes(answers)).wep <==> answers[1] || answers[6],
        cw_set_security(answered_yes(answers)).wpa_psk <==> answers[2] || answers[3] || answers[5],
        cw_set_security(answered_yes(answers)).wpa2_psk <==> answers[4] || answers[5] || answers[13],
        cw_set_security(answered_yes(answers)).wpa3_sae <==> answers[11] || answers[5] || answers[13],
        cw_set_security(answered_yes(answers)).wpa2_enterprise <==> answers[7] || answers[8] || answers[9] || answers[10],
        cw_set_security(answered_yes(answers)).wpa3_enterprise <==> answers[12],
        cw_set_security(answered_yes(answers)).owe <==> answers[14] || answers[15],
{
    supported_values_were_answered_yes(answers);
    modes_are_named_by_values(answered_yes(answers));
}

/// The frequency of a channel goes by its band; there is none of a channel that
/// cannot be or in a band that is not known.
pub proof fn channels_have_their_frequency(channel: int)
    ensures
        0 <= channel <= 0xffff_ffff && channel != 14 ==> frequency_of(channel, 1) == Some(
            2407 + 5 * channel,
        ),
        frequency_of(14, 1) == Some(2484int),
        0 <= channel <= 0xffff_ffff ==> frequency_of(channel, 2) == Some(5000 + 5 * channel)
            && frequency_of(channel, 3) == Some(5950 + 5 * channel),
        forall|band: i64| channel < 0 || channel > 0xffff_ffff ==> #[trigger] frequency_of(
            channel,
            band,
        ) is None,
        forall|band: i64| band < 1 || band > 3 ==> #[trigger] frequency_of(channel, band) is None,
{
}

/// The frequency of every channel that exists can be held.
pub proof fn real_channels_fit(channel: int, band: i64)
    requires
        channel <= 858_000_000,
    ensures
        frequency_fits(channel, band),
{
}

/// An observation says what the network says: its octets, its strength unless that
/// is zero, the quality of that, and the modes and the frequency that it supports.
pub proof fn observations_say_what_was_described(network: CwNetwork, bss: BssView)
    requires
        observes(network, bss),
    ensures
        network.ssid_data is Some && bss.ssid == network.ssid_data->0@,
        bss.security == cw_set_security(answered_yes(network.supports@)),
        network.rssi as i16 == 0 ==> bss.rssi_dbm is None && bss.quality == 0,
        network.rssi as i16 != 0 ==> bss.rssi_dbm == Some(network.rssi as i16),
        network.rssi as i16 <= -100 ==> bss.quality == 0,
        -100 <= network.rssi as i16 <= -50 ==> bss.quality == 2 * (network.rssi as i16 + 100),
        network.rssi as i16 >= -50 && network.rssi as i16 != 0 ==> bss.quality == 100,
        network.rssi == 0 ==> bss.rssi_dbm is None && bss.quality == 0,
        -32768 <= network.rssi <= 32767 && network.rssi != 0 ==> bss.rssi_dbm is Some
            && bss.rssi_dbm->0 == network.rssi,
        network.channel is None ==> bss.frequency_mhz is None,
        network.channel is Some && bss.frequency_mhz is Some ==> frequency_of(
            network.channel->0.number as int,
            network.channel->0.band,
        ) == Some(bss.frequency_mhz->0 as int),
        network.channel is Some && bss.frequency_mhz is None ==> frequency_of(
            network.channel->0.number as int,
            network.channel->0.band,
        ) is None,
        bssid_reading(network.bssid, bss.bssid),
{
}

/// The networks that count are those with an SSID, in their order.
pub proof fn networks_with_an_ssid_count(networks: Seq<CwNetwork>)
    ensures
        named_networks(networks) == networks.filter(|n: CwNetwork| n.ssid_data is Some),
    decreases networks.len(),
{
    reveal(Seq::filter);
    if networks.len() > 0 {
        networks_with_an_ssid_count(networks.drop_last());
    }
}

/// There is one observation for each network with an SSID, and it stands where the
/// network stands among those.
pub proof fn each_named_network_is_observed(networks: Seq<CwNetwork>, bsses: Seq<RawBss>, k: int)
    requires
        are_observations(networks, bsses),
        0 <= k < bsses.len(),
    ensures
        ({
            let named = networks.filter(|n: CwNetwork| n.ssid_data is Some);
            bsses.len() == named.len() && observes(named[k], bsses[k]@)
        }),
{
    networks_with_an_ssid_count(networks);
}

/// A profile can be used exactly when the keychain has an entry and its octets are
/// those of the SSID.
pub proof fn usable_profiles_have_the_octets(profile: ProfileReading, octets: Vec<u8>, ssid: Seq<u8>)
    ensures
        is_usable(profile, ssid) ==> profile.in_keychain && profile.ssid_data is Some
            && profile.ssid_data->0@ == ssid,
        is_usable(ProfileReading { ssid_data: Some(octets), in_keychain: true }, octets@),
{
}

} // verus!
