//! What `WlanGetAvailableNetworkList`, `WlanGetNetworkBssList` and
//! `WlanQueryInterface` report, and how a scan ends.

use std::time::Duration;

use vstd::prelude::*;

use crate::duration::{duration_nanos, seconds};
use crate::error::{failure, Error, ErrorView, OsErrorView};
use crate::flags::SecurityFlags;
use crate::platform::windows::adapters::{
    text_length, texts_end_at_the_first_nul, units_before_nul,
};
use crate::platform::windows::notifications::{
    after_dispatch,
    ends_scan,
    Dispatcher,
    Notification,
    Waiters,
};
use crate::platform::windows::security::{auth_cipher_security, security_from_auth_cipher};
use crate::platform::windows::util::{check_win32, win32_failure, Guid, GuidView};
use crate::scan_rollup::{
    bss_views, optional_ssid, quality_from_dbm, quality_of, BssView, RawBss, ScanContext,
};
use crate::types::{Ssid, SsidSet};

verus! {

broadcast use vstd::string::group_string_axioms;

/// `DOT11_SSID`: an SSID in a buffer of fixed size.
#[derive(Debug, Clone, Copy)]
pub struct Dot11Ssid {
    pub length: u32,
    pub octets: [u8; 32],
}

/// The SSID in the buffer, unless its length is zero or beyond the buffer.
pub open spec fn dot11_ssid(ssid: Dot11Ssid) -> Option<Seq<u8>> {
    if 0 < ssid.length <= 32 {
        Some(ssid.octets@.take(ssid.length as int))
    } else {
        None
    }
}

/// The octets in the buffer, unless the length is zero or beyond the buffer.
fn octets_of(ssid: &Dot11Ssid) -> (r: Option<Vec<u8>>)
    ensures
        r is Some <==> dot11_ssid(*ssid) is Some,
        r matches Some(octets) ==> Some(octets@) == dot11_ssid(*ssid),
{
    if ssid.length == 0 || ssid.length > 32 {
        return None;
    }
    let len: usize = ssid.length as usize;
    let mut out: Vec<u8> = Vec::new();
    let mut i: usize = 0;
    while i < len
        invariant
            i <= len <= 32,
            out@ =~= ssid.octets@.take(i as int),
        decreases len - i,
    {
        out.push(ssid.octets[i]);
        i = i + 1;
    }
    Some(out)
}

/// The SSID in the buffer, unless its length is zero or beyond the buffer.
pub fn ssid_from_dot11(ssid: &Dot11Ssid) -> (r: Option<Ssid>)
    ensures
        optional_ssid(r) == dot11_ssid(*ssid),
{
    match octets_of(ssid) {
        Some(octets) => Some(Ssid::from_bytes(octets)),
        None => None,
    }
}

/// `WLAN_BSS_ENTRY`, as far as it is used.
#[derive(Debug, Clone, Copy)]
pub struct BssEntry {
    /// `lRssi`, in dBm.
    pub rssi: i32,
    /// `dot11Bssid`.
    pub bssid: [u8; 6],
    /// `ulChCenterFrequency`, in kHz.
    pub center_frequency_khz: u32,
}

/// `WLAN_AVAILABLE_NETWORK`, as far as it is used, with its BSS list.
#[derive(Debug)]
pub struct AvailableNetwork {
    pub ssid: Dot11Ssid,
    /// `dot11DefaultAuthAlgorithm`.
    pub auth: i32,
    /// `dot11DefaultCipherAlgorithm`.
    pub cipher: i32,
    /// `wlanSignalQuality`, documented as 0..=100.
    pub signal_quality: u32,
    /// `strProfileName`, NUL-terminated UTF-16.
    pub profile_name: Vec<u16>,
    /// What `WlanGetNetworkBssList` lists for the network, if it could be read.
    pub bsses: Option<Vec<BssEntry>>,
}

/// A signal strength, with an impossible one taken as the weakest.
pub open spec fn clamped_rssi(rssi: i32) -> i16 {
    if i16::MIN <= rssi <= i16::MAX {
        rssi as i16
    } else {
        i16::MIN
    }
}

/// The observation of a BSS entry.
pub open spec fn entry_view(ssid: Seq<u8>, security: SecurityFlags, entry: BssEntry) -> BssView {
    BssView {
        ssid,
        security,
        rssi_dbm: Some(clamped_rssi(entry.rssi)),
        quality: quality_of(clamped_rssi(entry.rssi) as int) as u8,
        bssid: Some(entry.bssid),
        frequency_mhz: Some(entry.center_frequency_khz / 1000),
    }
}

/// Turns a BSS entry into an observation.
pub fn raw_bss_from_entry(ssid_bytes: &[u8], security: SecurityFlags, entry: &BssEntry) -> (r: RawBss)
    ensures
        r@ == entry_view(ssid_bytes@, security, *entry),
{
    let rssi: i16 = if entry.rssi < i16::MIN as i32 || entry.rssi > i16::MAX as i32 {
        i16::MIN
    } else {
        entry.rssi as i16
    };
    RawBss {
        ssid: Ssid::from_bytes(vstd::slice::slice_to_vec(ssid_bytes)),
        security,
        rssi_dbm: Some(rssi),
        quality: quality_from_dbm(rssi),
        bssid: Some(entry.bssid),
        frequency_mhz: Some(entry.center_frequency_khz / 1000),
    }
}

/// The observations of a network: one for each BSS, or a single one without
/// details when the BSS list could not be read.
pub open spec fn network_bsses(net: AvailableNetwork) -> Seq<BssView> {
    match dot11_ssid(net.ssid) {
        None => seq![],
        Some(ssid) => {
            let security = auth_cipher_security(net.auth, net.cipher);
            match net.bsses {
                Some(entries) => entries@.map_values(|e: BssEntry| entry_view(ssid, security, e)),
                None => seq![
                    BssView {
                        ssid,
                        security,
                        rssi_dbm: None,
                        quality: if net.signal_quality < 100 {
                            net.signal_quality as u8
                        } else {
                            100
                        },
                        bssid: None,
                        frequency_mhz: None,
                    },
                ],
            }
        },
    }
}

/// The observations of networks, in order.
pub open spec fn available_bsses(nets: Seq<AvailableNetwork>) -> Seq<BssView>
    decreases nets.len(),
{
    if nets.len() == 0 {
        seq![]
    } else {
        available_bsses(nets.drop_last()) + network_bsses(nets.last())
    }
}

fn push_network(net: &AvailableNetwork, out: &mut Vec<RawBss>)
    ensures
        bss_views(final(out)@) == bss_views(old(out)@) + network_bsses(*net),
{
    let ssid_bytes = match octets_of(&net.ssid) {
        Some(octets) => octets,
        None => {
            assert(bss_views(out@) =~= bss_views(old(out)@) + network_bsses(*net));
            return ;
        },
    };
    let security = security_from_auth_cipher(net.auth, net.cipher);
    match &net.bsses {
        None => {
            let quality: u8 = if net.signal_quality < 100 {
                net.signal_quality as u8
            } else {
                100
            };
            out.push(
                RawBss {
                    ssid: Ssid::from_bytes(ssid_bytes),
                    security,
                    rssi_dbm: None,
                    quality,
                    bssid: None,
                    frequency_mhz: None,
                },
            );
            assert(bss_views(out@) =~= bss_views(old(out)@) + network_bsses(*net));
        },
        Some(entries) => {
            let ghost wanted = network_bsses(*net);
            let ghost ssid = ssid_bytes@;
            let mut i: usize = 0;
            while i < entries.len()
                invariant
                    i <= entries@.len(),
                    ssid == ssid_bytes@,
                    wanted == entries@.map_values(|e: BssEntry| entry_view(ssid, security, e)),
                    bss_views(out@) =~= bss_views(old(out)@) + wanted.take(i as int),
                decreases entries@.len() - i,
            {
                let ghost was = out@;
                let bss = raw_bss_from_entry(ssid_bytes.as_slice(), security, &entries[i]);
                out.push(bss);
                assert(bss@ == wanted[i as int]);
                assert(bss_views(out@) =~= bss_views(was).push(bss@));
                i = i + 1;
            }
            assert(wanted.take(wanted.len() as int) =~= wanted);
        },
    }
}

/// The observations in what the OS lists, from the status of
/// `WlanGetAvailableNetworkList` and the list that it handed out, if any.
/// Networks without a name are skipped.
///
/// # Errors
///
/// Returns `Error::Os(_)` if `WlanGetAvailableNetworkList` failed.
pub fn collect_bsses_blocking(code: u32, nets: Option<Vec<AvailableNetwork>>) -> (r: Result<
    Vec<RawBss>,
    Error,
>)
    ensures
        code != 0 ==> failure(r) == Some(win32_failure("WlanGetAvailableNetworkList"@, code)),
        code == 0 ==> r is Ok && bss_views(r->Ok_0@) == (match nets {
            Some(list) => available_bsses(list@),
            None => seq![],
        }),
{
    match check_win32("WlanGetAvailableNetworkList", code) {
        Err(e) => {
            return Err(e);
        },
        Ok(()) => {},
    }
    let mut out: Vec<RawBss> = Vec::new();
    assert(bss_views(out@) =~= seq![]);
    if let Some(list) = &nets {
        let mut i: usize = 0;
        while i < list.len()
            invariant
                i <= list@.len(),
                bss_views(out@) =~= available_bsses(list@.take(i as int)),
            decreases list@.len() - i,
        {
            push_network(&list[i], &mut out);
            assert(list@.take(i + 1).drop_last() =~= list@.take(i as int));
            i = i + 1;
        }
        assert(list@.take(list@.len() as int) =~= list@);
    }
    Ok(out)
}

/// The SSID of a network with a saved profile.
pub open spec fn saved_network(net: AvailableNetwork) -> Option<Seq<u8>> {
    if text_length(net.profile_name@) == 0 {
        None
    } else {
        dot11_ssid(net.ssid)
    }
}

/// The SSIDs of networks with a saved profile.
pub open spec fn saved_networks(nets: Seq<AvailableNetwork>) -> Set<Seq<u8>> {
    Set::new(
        |s: Seq<u8>| exists|i: int| 0 <= i < nets.len() && saved_network(#[trigger] nets[i]) == Some(s),
    )
}

/// The scan context: the SSID of the current connection, if there is one, and
/// those of the networks that the OS lists with a profile name.
///
/// # Errors
///
/// Returns `Error::Os(_)` if `WlanGetAvailableNetworkList` failed.
pub fn collect_context_blocking(
    association: Option<Dot11Ssid>,
    code: u32,
    nets: Option<Vec<AvailableNetwork>>,
) -> (r: Result<ScanContext, Error>)
    ensures
        code != 0 ==> failure(r) == Some(win32_failure("WlanGetAvailableNetworkList"@, code)),
        code == 0 ==> r is Ok && r->Ok_0@.connected == (match association {
            Some(ssid) => dot11_ssid(ssid),
            None => None,
        }) && r->Ok_0@.saved == (match nets {
            Some(list) => saved_networks(list@),
            None => Set::empty(),
        }),
{
    let connected_ssid = match association {
        Some(ssid) => ssid_from_dot11(&ssid),
        None => None,
    };
    match check_win32("WlanGetAvailableNetworkList", code) {
        Err(e) => {
            return Err(e);
        },
        Ok(()) => {},
    }
    let mut saved_ssids = SsidSet::new();
    if let Some(list) = &nets {
        let mut i: usize = 0;
        assert(saved_ssids@ =~= saved_networks(list@.take(0)));
        while i < list.len()
            invariant
                i <= list@.len(),
                saved_ssids@ == saved_networks(list@.take(i as int)),
            decreases list@.len() - i,
        {
            let net = &list[i];
            let ghost before = list@.take(i as int);
            let ghost after = list@.take(i + 1);
            proof {
                assert forall|s: Seq<u8>| saved_networks(after).contains(s) <==> (saved_networks(
                    before,
                ).contains(s) || saved_network(*net) == Some(s)) by {
                    if saved_networks(after).contains(s) {
                        let k = choose|k: int|
                            0 <= k < after.len() && saved_network(#[trigger] after[k]) == Some(s);
                        if k < i {
                            assert(before[k] == after[k]);
                        }
                    }
                    if saved_networks(before).contains(s) {
                        let k = choose|k: int|
                            0 <= k < before.len() && saved_network(#[trigger] before[k]) == Some(s);
                        assert(after[k] == before[k]);
                    }
                    if saved_network(*net) == Some(s) {
                        assert(after[i as int] == *net);
                    }
                }
            }
            if units_before_nul(net.profile_name.as_slice()) != 0 {
                if let Some(ssid) = ssid_from_dot11(&net.ssid) {
                    let _new = saved_ssids.insert(ssid);
                }
            }
            assert(saved_ssids@ =~= saved_networks(after));
            i = i + 1;
        }
        assert(list@.take(list@.len() as int) =~= list@);
    }
    Ok(ScanContext { connected_ssid, saved_ssids })
}

/// How long a scan is waited for.
pub fn scan_wait() -> (r: Duration)
    ensures
        duration_nanos(r) == 5_000_000_000,
{
    seconds(5)
}

/// What became of a scan whose waiter was registered beforehand.
#[derive(Debug)]
pub enum ScanWait {
    /// `WlanScan` could not be called.
    NotCalled(Error),
    /// `WlanScan` returned that status, which is not zero.
    Refused(u32),
    /// The waiter was served in time.
    Served,
    /// Nothing came in time.
    Deadline,
}

/// The error of a scan. One that is not heard of in time is none: what the OS has
/// cached is read then.
pub open spec fn scan_wait_error(wait: ScanWait) -> Option<ErrorView> {
    match wait {
        ScanWait::NotCalled(e) => Some(e@),
        ScanWait::Refused(code) => if code == 0 {
            None
        } else {
            Some(win32_failure("WlanScan"@, code))
        },
        ScanWait::Served | ScanWait::Deadline => None,
    }
}

/// Who is still waiting when a scan has ended: its own waiter is not.
pub open spec fn after_scan_wait<C, S>(
    waiters: Waiters<C, S>,
    interface: GuidView,
    wait: ScanWait,
) -> Waiters<C, S> {
    if wait is Served {
        waiters
    } else {
        Waiters { scan: waiters.scan.remove(interface), ..waiters }
    }
}

/// Ends a scan. Its waiter is dropped unless it was served, so that a late
/// notification does not reach the waiter of the next scan.
///
/// # Errors
///
/// Returns the error of a scan that was not begun.
pub fn finish_scan<C, S>(
    dispatcher: &mut Dispatcher<C, S>,
    interface: Guid,
    wait: ScanWait,
) -> (r: Result<(), Error>)
    ensures
        failure(r) == scan_wait_error(wait),
        final(dispatcher)@ == after_scan_wait(old(dispatcher)@, interface@, wait),
{
    match wait {
        ScanWait::NotCalled(e) => {
            dispatcher.drop_pending_scan(interface);
            Err(e)
        },
        ScanWait::Refused(code) => {
            dispatcher.drop_pending_scan(interface);
            check_win32("WlanScan", code)
        },
        ScanWait::Served => Ok(()),
        ScanWait::Deadline => {
            dispatcher.drop_pending_scan(interface);
            Ok(())
        },
    }
}

/// A scan leaves no waiter behind: a notification that ends it takes the waiter
/// away, and where none came in time the waiter is dropped. The waiters of other
/// interfaces stay.
pub proof fn scans_leave_no_waiter<C, S>(
    waiters: Waiters<C, S>,
    data: Notification,
    interface: GuidView,
    wait: ScanWait,
    other: GuidView,
)
    requires
        ends_scan(data),
        data.interface@ == interface,
        other != interface,
    ensures
        ({
            let ended = if wait is Served {
                after_scan_wait(after_dispatch(waiters, data), interface, wait)
            } else {
                after_scan_wait(waiters, interface, wait)
            };
            &&& !ended.scan.contains_key(interface)
            &&& ended.scan.contains_key(other) <==> waiters.scan.contains_key(other)
            &&& waiters.scan.contains_key(other) ==> ended.scan[other] == waiters.scan[other]
            &&& ended.connect == waiters.connect
        }),
{
}

/// A buffer names an SSID exactly when its length is one to thirty-two, and then
/// it is that many octets from the front.
pub proof fn dot11_ssids_are_prefixes(ssid: Dot11Ssid)
    ensures
        dot11_ssid(ssid) is None <==> ssid.length == 0 || ssid.length > 32,
        dot11_ssid(ssid) matches Some(octets) ==> octets.len() == ssid.length && forall|k: int|
            0 <= k < octets.len() ==> #[trigger] octets[k] == ssid.octets@[k],
{
}

/// An observation says what the entry says: its strength, or the weakest there is
/// for one that does not fit, the quality of that, the address, and the frequency
/// in MHz.
pub proof fn entries_are_observed_as_listed(ssid: Seq<u8>, security: SecurityFlags, entry: BssEntry)
    ensures
        ({
            let bss = entry_view(ssid, security, entry);
            &&& bss.ssid == ssid
            &&& bss.security == security
            &&& bss.bssid == Some(entry.bssid)
            &&& bss.frequency_mhz is Some && bss.frequency_mhz->0 * 1000
                <= entry.center_frequency_khz < bss.frequency_mhz->0 * 1000 + 1000
            &&& bss.rssi_dbm is Some
            &&& -32768 <= entry.rssi <= 32767 ==> bss.rssi_dbm->0 == entry.rssi
            &&& !(-32768 <= entry.rssi <= 32767) ==> bss.rssi_dbm->0 == -32768
            &&& entry.rssi <= -100 ==> bss.quality == 0
            &&& -100 <= entry.rssi <= -50 ==> bss.quality == 2 * (entry.rssi + 100)
            &&& -50 <= entry.rssi <= 32767 ==> bss.quality == 100
            &&& entry.rssi > 32767 ==> bss.quality == 0
        }),
{
}

/// A network with a name is observed once for each entry of its BSS list, in that
/// order, and once without details when there is no list; one without a name is
/// not observed.
pub proof fn networks_are_observed_by_entry(net: AvailableNetwork, k: int)
    ensures
        net.ssid.length == 0 || net.ssid.length > 32 ==> network_bsses(net).len() == 0,
        0 < net.ssid.length <= 32 && net.bsses is Some ==> network_bsses(net).len()
            == net.bsses->0@.len() && (0 <= k < net.bsses->0@.len() ==> network_bsses(net)[k]
            == entry_view(
            net.ssid.octets@.take(net.ssid.length as int),
            auth_cipher_security(net.auth, net.cipher),
            net.bsses->0@[k],
        )),
        0 < net.ssid.length <= 32 && net.bsses is None ==> {
            let bss = network_bsses(net)[0];
            &&& network_bsses(net).len() == 1
            &&& bss.ssid == net.ssid.octets@.take(net.ssid.length as int)
            &&& bss.security == auth_cipher_security(net.auth, net.cipher)
            &&& net.signal_quality <= 100 ==> bss.quality == net.signal_quality
            &&& net.signal_quality > 100 ==> bss.quality == 100
            &&& bss.rssi_dbm is None && bss.bssid is None && bss.frequency_mhz is None
        },
{
}

/// What the OS lists is observed network by network, in its order, with nothing
/// left out and nothing added.
pub proof fn lists_are_observed_in_order(nets: Seq<AvailableNetwork>)
    ensures
        available_bsses(nets) == nets.map_values(|n: AvailableNetwork| network_bsses(n)).flatten_alt(),
    decreases nets.len(),
{
    let parts = nets.map_values(|n: AvailableNetwork| network_bsses(n));
    if nets.len() == 0 {
        assert(parts.flatten_alt() =~= seq![]);
    } else {
        lists_are_observed_in_order(nets.drop_last());
        assert(parts.drop_last() =~= nets.drop_last().map_values(
            |n: AvailableNetwork| network_bsses(n),
        ));
    }
}

/// An SSID counts as saved exactly when the OS lists a network with that name and
/// with a profile name that is not empty.
pub proof fn saved_means_listed_with_a_profile(nets: Seq<AvailableNetwork>, ssid: Seq<u8>)
    ensures
        saved_networks(nets).contains(ssid) <==> exists|i: int|
            0 <= i < nets.len() && (#[trigger] nets[i]).profile_name@.len() > 0
                && nets[i].profile_name@[0] != 0 && 0 < nets[i].ssid.length <= 32
                && nets[i].ssid.octets@.take(nets[i].ssid.length as int) == ssid,
{
    assert forall|i: int| 0 <= i < nets.len() implies (saved_network(#[trigger] nets[i]) == Some(ssid)
        <==> nets[i].profile_name@.len() > 0 && nets[i].profile_name@[0] != 0 && 0
        < nets[i].ssid.length <= 32 && nets[i].ssid.octets@.take(nets[i].ssid.length as int) == ssid) by {
        texts_end_at_the_first_nul(nets[i].profile_name@);
    }
}

/// A scan fails only when it was not begun, with the error of the call or the
/// status that it returned.
pub proof fn scans_fail_only_to_begin(wait: ScanWait)
    ensures
        match wait {
            ScanWait::NotCalled(e) => scan_wait_error(wait) == Some(e@),
            ScanWait::Refused(code) => code != 0 ==> scan_wait_error(wait) == Some(
                ErrorView::Os(OsErrorView::Win32 { function: "WlanScan"@, code }),
            ),
            ScanWait::Served => scan_wait_error(wait) is None,
            ScanWait::Deadline => scan_wait_error(wait) is None,
        },
        scan_wait_error(ScanWait::Refused(0)) is None,
{
}

} // verus!
