//! What `WifiManager.getScanResults()` says.

use vstd::prelude::*;
use vstd::utf8::*;

use crate::bssid::{bssid_reading, parse_bssid};
use crate::error::{failure, os_message, Error, ErrorView, OsErrorView};
use crate::platform::android::security::{capabilities_security, security_from_capabilities};
use crate::platform::android::wifi_manager::{optional_text, strip_quotes};
use crate::scan_rollup::{optional_ssid, quality_from_dbm, quality_of, BssView, RawBss, ScanContext};
use crate::text::{same_text, unquoted, unquoting_takes_one_pair};
use crate::types::{Ssid, SsidSet};

verus! {

broadcast use vstd::string::group_string_axioms;

/// A `ScanResult`, as far as it is used.
#[derive(Debug)]
pub struct ScanResult {
    /// `SSID`, unless it is null.
    pub ssid: Option<String>,
    /// `BSSID`, unless it is null.
    pub bssid: Option<String>,
    /// `level`, in dBm.
    pub level: i32,
    /// `frequency`, in MHz.
    pub frequency: i32,
    /// `capabilities`, unless they are null.
    pub capabilities: Option<String>,
}

/// The capabilities text, empty where there is none.
pub open spec fn capabilities_text(result: ScanResult) -> Seq<char> {
    match result.capabilities {
        Some(s) => s@,
        None => seq![],
    }
}

/// `bss` is the observation that a scan result stands for.
pub open spec fn observes(result: ScanResult, bss: BssView) -> bool {
    &&& result.ssid is Some
    &&& bss.ssid == encode_utf8(result.ssid->0@)
    &&& bss.security == capabilities_security(capabilities_text(result))
    &&& bss.rssi_dbm == Some(result.level as i16)
    &&& bss.quality == quality_of((result.level as i16) as int)
    &&& bssid_reading(result.bssid, bss.bssid)
    &&& bss.frequency_mhz == (if result.frequency >= 0 {
        Some(result.frequency as u32)
    } else {
        None
    })
}

fn observation(result: &ScanResult) -> (r: Option<RawBss>)
    ensures
        r is Some <==> result.ssid is Some,
        r matches Some(bss) ==> observes(*result, bss@),
{
    match &result.ssid {
        None => None,
        Some(ssid) => {
            let bssid = match &result.bssid {
                Some(s) => parse_bssid(s.as_str()),
                None => None,
            };
            let security = match &result.capabilities {
                Some(s) => security_from_capabilities(s.as_str()),
                None => {
                    let none = String::new();
                    security_from_capabilities(none.as_str())
                },
            };
            // The valid Wi-Fi RSSI range is [-127, 0], so nothing is lost in
            // practice.
            let level: i16 = #[verifier::truncate]
            (result.level as i16);
            let frequency_mhz = if result.frequency >= 0 {
                Some(result.frequency as u32)
            } else {
                None
            };
            Some(
                RawBss {
                    ssid: Ssid::from_utf8(ssid.as_str()),
                    security,
                    rssi_dbm: Some(level),
                    quality: quality_from_dbm(level),
                    bssid,
                    frequency_mhz,
                },
            )
        },
    }
}

/// The scan results that have an SSID.
pub open spec fn named_results(results: Seq<ScanResult>) -> Seq<ScanResult>
    decreases results.len(),
{
    if results.len() == 0 {
        seq![]
    } else {
        let before = named_results(results.drop_last());
        if results.last().ssid is Some {
            before.push(results.last())
        } else {
            before
        }
    }
}

/// `bsses` are the observations that the scan results stand for, in their order.
pub open spec fn are_observations(results: Seq<ScanResult>, bsses: Seq<RawBss>) -> bool {
    &&& bsses.len() == named_results(results).len()
    &&& forall|k: int|
        0 <= k < bsses.len() ==> observes(named_results(results)[k], (#[trigger] bsses[k])@)
}

/// Turns the scan results into observations. Those without an SSID are skipped.
pub fn read_scan_results_rich(results: &Vec<ScanResult>) -> (r: Vec<RawBss>)
    ensures
        are_observations(results@, r@),
{
    let mut out: Vec<RawBss> = Vec::new();
    let mut i: usize = 0;
    while i < results.len()
        invariant
            i <= results@.len(),
            out@.len() == named_results(results@.take(i as int)).len(),
            forall|k: int|
                0 <= k < out@.len() ==> observes(
                    named_results(results@.take(i as int))[k],
                    (#[trigger] out@[k])@,
                ),
        decreases results@.len() - i,
    {
        assert(results@.take(i + 1).drop_last() =~= results@.take(i as int));
        if let Some(bss) = observation(&results[i]) {
            out.push(bss);
        }
        i = i + 1;
    }
    assert(results@.take(results@.len() as int) =~= results@);
    out
}

/// The error for a failed JNI call.
pub open spec fn jni_failure(text: Seq<char>) -> ErrorView {
    ErrorView::Os(OsErrorView::Message("jni error: "@ + text))
}

fn jni_error(text: &str) -> (r: Error)
    ensures
        r@ == jni_failure(text@),
{
    let mut message = "jni error: ".to_owned();
    message.push_str(text);
    os_message(message.as_str())
}

/// What a scan comes to. `permission` is whether the app may scan, `manager`
/// whether there is a `WifiManager`, each with a description of what failed; the
/// results are nothing when they could not be read, which counts as an empty
/// scan.
///
/// # Errors
///
/// Returns `Error::PermissionDenied(_)` without the permission, and
/// `Error::Os(_)` when a check failed.
pub fn fetch_bsses_blocking(
    permission: Result<bool, String>,
    manager: Result<(), String>,
    results: Option<Vec<ScanResult>>,
) -> (r: Result<Vec<RawBss>, Error>)
    ensures
        match permission {
            Err(text) => failure(r) == Some(jni_failure(text@)),
            Ok(false) => failure(r) == Some(
                ErrorView::PermissionDenied("ACCESS_FINE_LOCATION or NEARBY_WIFI_DEVICES"@),
            ),
            Ok(true) => match manager {
                Err(text) => failure(r) == Some(jni_failure(text@)),
                Ok(_) => r is Ok && (match results {
                    None => r->Ok_0@.len() == 0,
                    Some(list) => are_observations(list@, r->Ok_0@),
                }),
            },
        },
{
    match permission {
        Ok(true) => {},
        Ok(false) => {
            return Err(Error::PermissionDenied("ACCESS_FINE_LOCATION or NEARBY_WIFI_DEVICES"));
        },
        Err(text) => {
            return Err(jni_error(text.as_str()));
        },
    }
    if let Err(text) = manager {
        return Err(jni_error(text.as_str()));
    }
    match results {
        Some(list) => Ok(read_scan_results_rich(&list)),
        None => Ok(Vec::new()),
    }
}

/// The SSID that the device is connected to, from what `getSSID()` returned.
pub open spec fn connected_text(text: Option<Seq<char>>) -> Option<Seq<u8>> {
    match text {
        None => None,
        Some(s) => {
            let name = unquoted(s);
            if name.len() == 0 || name == "<unknown ssid>"@ {
                None
            } else {
                Some(encode_utf8(name))
            }
        },
    }
}

/// Read the currently-connected SSID from what `WifiInfo.getSSID()` returned,
/// stripping the surrounding quotes Android wraps it in and treating
/// `<unknown ssid>` as `None`.
pub fn read_connected_ssid(info: Option<&str>) -> (r: Option<Ssid>)
    ensures
        optional_ssid(r) == connected_text(optional_text(info)),
{
    match info {
        None => None,
        Some(s) => {
            let name = strip_quotes(s);
            if name.as_str().is_empty() || same_text(name.as_str(), "<unknown ssid>") {
                return None;
            }
            Some(Ssid::from_utf8(name.as_str()))
        },
    }
}

/// The scan context: the connected SSID and those of the suggestion cache
/// (Android has no API to enumerate previously-registered suggestions).
pub fn fetch_scan_context_blocking(info: Option<&str>, saved_ssids: SsidSet) -> (r: ScanContext)
    ensures
        r@.connected == connected_text(optional_text(info)),
        r@.saved == saved_ssids@,
{
    ScanContext { connected_ssid: read_connected_ssid(info), saved_ssids }
}

/// The results that count are those with an SSID, in their order.
pub proof fn results_with_an_ssid_count(results: Seq<ScanResult>)
    ensures
        named_results(results) == results.filter(|r: ScanResult| r.ssid is Some),
    decreases results.len(),
{
    reveal(Seq::filter);
    if results.len() > 0 {
        results_with_an_ssid_count(results.drop_last());
    }
}

/// An observation says what the result says: the octets of its SSID, its level and
/// the quality of that, and its frequency unless that is negative.
pub proof fn observations_say_what_was_scanned(result: ScanResult, bss: BssView)
    requires
        observes(result, bss),
    ensures
        result.ssid is Some && bss.ssid == encode_utf8(result.ssid->0@),
        result.capabilities is Some ==> bss.security == capabilities_security(
            result.capabilities->0@,
        ),
        result.capabilities is None ==> bss.security == capabilities_security(seq![]),
        -32768 <= result.level <= 32767 ==> bss.rssi_dbm is Some && bss.rssi_dbm->0 == result.level,
        bss.rssi_dbm == Some(result.level as i16),
        result.level as i16 <= -100 ==> bss.quality == 0,
        -100 <= result.level as i16 <= -50 ==> bss.quality == 2 * (result.level as i16 + 100),
        result.level as i16 >= -50 ==> bss.quality == 100,
        result.frequency < 0 ==> bss.frequency_mhz is None,
        result.frequency >= 0 ==> bss.frequency_mhz is Some && bss.frequency_mhz->0
            == result.frequency,
        bssid_reading(result.bssid, bss.bssid),
{
}

/// There is one observation for each result with an SSID, and it stands where the
/// result stands among those.
pub proof fn each_named_result_is_observed(results: Seq<ScanResult>, bsses: Seq<RawBss>, k: int)
    requires
        are_observations(results, bsses),
        0 <= k < bsses.len(),
    ensures
        ({
            let named = results.filter(|r: ScanResult| r.ssid is Some);
            bsses.len() == named.len() && observes(named[k], bsses[k]@)
        }),
{
    results_with_an_ssid_count(results);
}

/// A quoted name is what the device is connected to, unless it is empty or the one
/// that stands for an unknown network.
pub proof fn connected_names_are_quoted(name: Seq<char>)
    ensures
        connected_text(Some(seq!['"'] + name + seq!['"'])) == if name.len() == 0 || name
            == "<unknown ssid>"@ {
            None
        } else {
            Some(encode_utf8(name))
        },
        name.len() < 2 || name[0] != '"' || name.last() != '"' ==> connected_text(Some(name)) == if
            name.len() == 0 || name == "<unknown ssid>"@ {
            None
        } else {
            Some(encode_utf8(name))
        },
        connected_text(Some("<unknown ssid>"@)) is None,
        connected_text(None) is None,
{
    unquoting_takes_one_pair(name, name);
    reveal_strlit("<unknown ssid>");
    unquoting_takes_one_pair("<unknown ssid>"@, name);
}

/// A failed call is reported as such, with its description.
pub proof fn jni_failures_are_described(text: Seq<char>)
    ensures
        jni_failure(text) == ErrorView::Os(OsErrorView::Message("jni error: "@ + text)),
{
}

} // verus!
