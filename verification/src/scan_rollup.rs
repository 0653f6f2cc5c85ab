//! Shared rollup, normalization, and ordering for `list_visible_networks`.
//!
//! Each backend produces `Vec<RawBss>` plus a `ScanContext`; this module
//! collapses them to `Vec<VisibleNetwork>` with the cross-cutting
//! invariants (empty-SSID filtering, sort ordering, security union).

use vstd::prelude::*;

use crate::flags::{no_flags, SecurityFlags};
use crate::ordering::{
    bytes_less_goes_by_the_first_difference, in_report_order, insert_in_order, network_views, reported_before, reported_before_is_asymmetric,
};
use crate::types::{Band, NetworkView, Ssid, SsidSet, VisibleNetwork};

verus! {

/// Per-BSS observation produced by a backend's scan.
#[derive(Debug)]
pub struct RawBss {
    pub ssid: Ssid,
    pub security: SecurityFlags,
    pub rssi_dbm: Option<i16>,
    /// 0..=100. Backends compute it with `quality_from_dbm` when they have
    /// dBm, or pass through the OS-reported quality directly.
    pub quality: u8,
    pub bssid: Option<[u8; 6]>,
    pub frequency_mhz: Option<u32>,
}

/// What a [`RawBss`] says, with the SSID as its octets.
pub struct BssView {
    pub ssid: Seq<u8>,
    pub security: SecurityFlags,
    pub rssi_dbm: Option<i16>,
    pub quality: u8,
    pub bssid: Option<[u8; 6]>,
    pub frequency_mhz: Option<u32>,
}

impl View for RawBss {
    type V = BssView;

    open spec fn view(&self) -> BssView {
        BssView {
            ssid: self.ssid@,
            security: self.security,
            rssi_dbm: self.rssi_dbm,
            quality: self.quality,
            bssid: self.bssid,
            frequency_mhz: self.frequency_mhz,
        }
    }
}

/// What a list of observations says.
pub open spec fn bss_views(bsses: Seq<RawBss>) -> Seq<BssView> {
    bsses.map_values(|b: RawBss| b@)
}

/// Per-adapter context that stamps each rolled-up entry.
#[derive(Debug)]
pub struct ScanContext {
    pub connected_ssid: Option<Ssid>,
    pub saved_ssids: SsidSet,
}

/// What a [`ScanContext`] says, with SSIDs as their octets.
pub struct ContextView {
    pub connected: Option<Seq<u8>>,
    pub saved: Set<Seq<u8>>,
}

/// The octets of an optional SSID.
pub open spec fn optional_ssid(ssid: Option<Ssid>) -> Option<Seq<u8>> {
    match ssid {
        Some(s) => Some(s@),
        None => None,
    }
}

impl View for ScanContext {
    type V = ContextView;

    open spec fn view(&self) -> ContextView {
        ContextView { connected: optional_ssid(self.connected_ssid), saved: self.saved_ssids@ }
    }
}

/// The signal quality of a signal strength: -100 dBm and below is 0, -50 dBm and
/// above is 100, and it is linear in between.
pub open spec fn quality_of(rssi_dbm: int) -> int {
    if rssi_dbm <= -100 {
        0
    } else if rssi_dbm >= -50 {
        100
    } else {
        2 * (rssi_dbm + 100)
    }
}

/// Microsoft's `wlanSignalQuality` formula: linearly map -100 dBm → 0
/// and -50 dBm → 100, clamped to `[0, 100]`.
pub fn quality_from_dbm(rssi_dbm: i16) -> (r: u8)
    ensures
        r == quality_of(rssi_dbm as int),
        r <= 100,
{
    let v: i32 = 2 * (rssi_dbm as i32 + 100);
    if v < 0 {
        0
    } else if v > 100 {
        100
    } else {
        v as u8
    }
}

/// A stronger signal never has a lower quality.
pub proof fn quality_is_monotone(a: int, b: int)
    requires
        a <= b,
    ensures
        0 <= quality_of(a) <= quality_of(b) <= 100,
{
}

/// The coarse band of a frequency in MHz, where it has one.
pub open spec fn band_of(mhz: int) -> Option<Band> {
    if 2400 <= mhz <= 2500 {
        Some(Band::Ghz2_4)
    } else if 4915 <= mhz <= 5825 {
        Some(Band::Ghz5)
    } else if 5925 <= mhz <= 7125 {
        Some(Band::Ghz6)
    } else {
        None
    }
}

/// Map an operating frequency in MHz to a coarse band. `None` outside
/// the 2.4 / 5 / 6 GHz windows.
pub fn band_from_mhz(mhz: u32) -> (r: Option<Band>)
    ensures
        r == band_of(mhz as int),
{
    if 2400 <= mhz && mhz <= 2500 {
        Some(Band::Ghz2_4)
    } else if 4915 <= mhz && mhz <= 5825 {
        Some(Band::Ghz5)
    } else if 5925 <= mhz && mhz <= 7125 {
        Some(Band::Ghz6)
    } else {
        None
    }
}

/// `a` is a weaker observation than `b`: lower quality, or the same and a lower
/// signal strength, where an unknown strength is lower than any known one.
pub open spec fn weaker(a: BssView, b: BssView) -> bool {
    a.quality < b.quality || (a.quality == b.quality && match (a.rssi_dbm, b.rssi_dbm) {
        (None, Some(_)) => true,
        (Some(x), Some(y)) => x < y,
        (_, None) => false,
    })
}

/// The observations of one SSID, in order.
pub open spec fn heard(bsses: Seq<BssView>, ssid: Seq<u8>) -> Seq<BssView>
    decreases bsses.len(),
{
    if bsses.len() == 0 {
        seq![]
    } else {
        let before = heard(bsses.drop_last(), ssid);
        if bsses.last().ssid == ssid {
            before.push(bsses.last())
        } else {
            before
        }
    }
}

/// All security modes that a group of observations advertises.
pub open spec fn security_of(group: Seq<BssView>) -> SecurityFlags
    decreases group.len(),
{
    if group.len() == 0 {
        no_flags()
    } else {
        security_of(group.drop_last()).either(group.last().security)
    }
}

/// Observation `i` is the strongest of its SSID, and the first of those that are.
pub open spec fn is_strongest(bsses: Seq<BssView>, i: int) -> bool {
    &&& 0 <= i < bsses.len()
    &&& forall|j: int|
        0 <= j < bsses.len() && (#[trigger] bsses[j]).ssid == bsses[i].ssid ==> !weaker(
            bsses[i],
            bsses[j],
        ) && (j < i ==> weaker(bsses[j], bsses[i]))
}

/// The entry for the SSID whose strongest observation is `i`.
pub open spec fn summary(bsses: Seq<BssView>, i: int, ctx: ContextView) -> NetworkView {
    let best = bsses[i];
    NetworkView {
        ssid: best.ssid,
        signal_quality: best.quality,
        security: security_of(heard(bsses, best.ssid)),
        bss_count: heard(bsses, best.ssid).len(),
        is_connected: ctx.connected == Some(best.ssid),
        has_saved_profile: ctx.saved.contains(best.ssid),
        rssi_dbm: best.rssi_dbm,
        bssid: best.bssid,
        frequency_mhz: best.frequency_mhz,
    }
}

/// `network` is the entry for some SSID that is not empty.
pub open spec fn is_summary(bsses: Seq<BssView>, ctx: ContextView, network: NetworkView) -> bool {
    exists|i: int| #[trigger]
        is_strongest(bsses, i) && bsses[i].ssid.len() > 0 && network == summary(bsses, i, ctx)
}

/// `networks` is the report on `bsses`: one entry for each SSID that is not
/// empty, in report order.
pub open spec fn is_rollup(
    bsses: Seq<BssView>,
    ctx: ContextView,
    networks: Seq<NetworkView>,
) -> bool {
    &&& in_report_order(networks)
    &&& forall|n: int| 0 <= n < networks.len() ==> is_summary(bsses, ctx, #[trigger] networks[n])
    &&& forall|i: int|
        0 <= i < bsses.len() && (#[trigger] bsses[i]).ssid.len() > 0 ==> reports(
            networks,
            bsses[i].ssid,
        )
}

/// No SSID is observed more often than can be counted.
pub open spec fn can_be_counted(bsses: Seq<BssView>) -> bool {
    ||| bsses.len() <= u32::MAX
    ||| forall|ssid: Seq<u8>|
        ssid.len() > 0 ==> (#[trigger] heard(bsses, ssid)).len() <= u32::MAX
}

/// `networks` has an entry for `ssid`.
pub open spec fn reports(networks: Seq<NetworkView>, ssid: Seq<u8>) -> bool {
    exists|n: int| 0 <= n < networks.len() && (#[trigger] networks[n]).ssid == ssid
}

/// What has been collected on one SSID.
struct Acc {
    best: usize,
    security: SecurityFlags,
    count: u32,
}

/// `acc` sums up what `bsses` say on one SSID that is not empty.
spec fn acc_holds(bsses: Seq<BssView>, acc: Acc) -> bool {
    &&& is_strongest(bsses, acc.best as int)
    &&& bsses[acc.best as int].ssid.len() > 0
    &&& acc.security == security_of(heard(bsses, bsses[acc.best as int].ssid))
    &&& acc.count == heard(bsses, bsses[acc.best as int].ssid).len()
}

/// `accs` sum up what `bsses` say, one for each SSID that is not empty.
spec fn accs_hold(bsses: Seq<BssView>, accs: Seq<Acc>) -> bool {
    &&& forall|k: int| 0 <= k < accs.len() ==> acc_holds(bsses, #[trigger] accs[k])
    &&& forall|k: int, m: int|
        0 <= k < m < accs.len() ==> bsses[(#[trigger] accs[k]).best as int].ssid
            != bsses[(#[trigger] accs[m]).best as int].ssid
    &&& forall|i: int|
        0 <= i < bsses.len() && (#[trigger] bsses[i]).ssid.len() > 0 ==> covered(
            bsses,
            accs,
            bsses[i].ssid,
        )
}

spec fn covered(bsses: Seq<BssView>, accs: Seq<Acc>, ssid: Seq<u8>) -> bool {
    exists|k: int| 0 <= k < accs.len() && bsses[(#[trigger] accs[k]).best as int].ssid == ssid
}

proof fn lemma_heard_push(bsses: Seq<BssView>, b: BssView, ssid: Seq<u8>)
    ensures
        heard(bsses.push(b), ssid) == (if b.ssid == ssid {
            heard(bsses, ssid).push(b)
        } else {
            heard(bsses, ssid)
        }),
        heard(bsses, ssid).len() <= bsses.len(),
    decreases bsses.len(),
{
    assert(bsses.push(b).drop_last() =~= bsses);
    if bsses.len() > 0 {
        lemma_heard_push(bsses.drop_last(), bsses.last(), ssid);
        assert(bsses.drop_last().push(bsses.last()) =~= bsses);
    }
}

/// Of part of the observations, no more is heard than of all.
proof fn lemma_heard_grows(bsses: Seq<BssView>, n: int, ssid: Seq<u8>)
    requires
        0 <= n <= bsses.len(),
    ensures
        heard(bsses.take(n), ssid).len() <= heard(bsses, ssid).len() <= bsses.len(),
    decreases bsses.len(),
{
    if bsses.len() > 0 {
        let rest = bsses.drop_last();
        if n == bsses.len() {
            assert(bsses.take(n) =~= bsses);
            lemma_heard_grows(rest, n - 1, ssid);
        } else {
            assert(rest.take(n) =~= bsses.take(n));
            lemma_heard_grows(rest, n, ssid);
        }
    }
}

/// Only observations of the SSID are heard, and all of them are.
proof fn lemma_heard_members(bsses: Seq<BssView>, ssid: Seq<u8>)
    ensures
        forall|k: int| 0 <= k < heard(bsses, ssid).len() ==> bsses.contains(
            #[trigger] heard(bsses, ssid)[k],
        ) && heard(bsses, ssid)[k].ssid == ssid,
        forall|i: int|
            0 <= i < bsses.len() && (#[trigger] bsses[i]).ssid == ssid ==> heard(
                bsses,
                ssid,
            ).contains(bsses[i]),
    decreases bsses.len(),
{
    if bsses.len() > 0 {
        let rest = bsses.drop_last();
        let before = heard(rest, ssid);
        let now = heard(bsses, ssid);
        lemma_heard_members(rest, ssid);
        assert forall|k: int| 0 <= k < now.len() implies bsses.contains(#[trigger] now[k])
            && now[k].ssid == ssid by {
            if k < before.len() {
                assert(now[k] == before[k]);
                let i = choose|i: int| 0 <= i < rest.len() && rest[i] == before[k];
                assert(bsses[i] == before[k]);
            } else {
                assert(now[k] == bsses[bsses.len() - 1]);
            }
        }
        assert forall|i: int| 0 <= i < bsses.len() && (#[trigger] bsses[i]).ssid
            == ssid implies now.contains(bsses[i]) by {
            if i < rest.len() {
                assert(rest[i] == bsses[i]);
                let k = choose|k: int| 0 <= k < before.len() && before[k] == rest[i];
                assert(now[k] == bsses[i]);
            } else {
                assert(now[before.len() as int] == bsses[i]);
            }
        }
    }
}

proof fn lemma_security_push(group: Seq<BssView>, b: BssView)
    ensures
        security_of(group.push(b)) == security_of(group).either(b.security),
{
    assert(group.push(b).drop_last() =~= group);
}

fn is_weaker(a: &RawBss, b: &RawBss) -> (r: bool)
    ensures
        r == weaker(a@, b@),
{
    if a.quality != b.quality {
        a.quality < b.quality
    } else {
        match (a.rssi_dbm, b.rssi_dbm) {
            (None, Some(_)) => true,
            (Some(x), Some(y)) => x < y,
            (_, None) => false,
        }
    }
}

proof fn lemma_strongest_push(bsses: Seq<BssView>, b: BssView, best: int)
    requires
        is_strongest(bsses, best),
    ensures
        bsses[best].ssid != b.ssid || !weaker(bsses[best], b) ==> is_strongest(bsses.push(b), best),
        bsses[best].ssid == b.ssid && weaker(bsses[best], b) ==> is_strongest(
            bsses.push(b),
            bsses.len() as int,
        ),
{
    let now = bsses.push(b);
    let n = bsses.len() as int;
    assert(forall|j: int| 0 <= j < n ==> now[j] == bsses[j]);
    if bsses[best].ssid == b.ssid && weaker(bsses[best], b) {
        assert forall|j: int| 0 <= j < now.len() && (#[trigger] now[j]).ssid == now[n].ssid implies !weaker(
            now[n],
            now[j],
        ) && (j < n ==> weaker(now[j], now[n])) by {
            if j < n {
                assert(bsses[j].ssid == bsses[best].ssid);
                assert(!weaker(bsses[best], bsses[j]));
            }
        }
    }
}

/// Takes one more observation into account.
fn collect(bsses: &Vec<RawBss>, i: usize, accs: &mut Vec<Acc>)
    requires
        i < bsses@.len(),
        can_be_counted(bss_views(bsses@)),
        accs_hold(bss_views(bsses@).take(i as int), old(accs)@),
    ensures
        accs_hold(bss_views(bsses@).take(i + 1), final(accs)@),
{
    let ghost all = bss_views(bsses@);
    let ghost before = all.take(i as int);
    let ghost after = all.take(i + 1);
    let bss = &bsses[i];
    let ghost b = bss@;
    assert(after =~= before.push(b));
    let ghost was = accs@;
    proof {
        assert forall|k: int| 0 <= k < was.len() implies acc_holds(before, #[trigger] was[k])
            && was[k].best < i by {}
        assert forall|s: Seq<u8>| #[trigger] heard(after, s) == (if b.ssid == s {
            heard(before, s).push(b)
        } else {
            heard(before, s)
        }) by {
            lemma_heard_push(before, b, s);
        }
    }
    if bss.ssid.as_bytes().len() == 0 {
        proof {
            assert forall|k: int| 0 <= k < was.len() implies acc_holds(after, #[trigger] was[k]) by {
                lemma_strongest_push(before, b, was[k].best as int);
            }
            assert forall|j: int| 0 <= j < after.len() && (#[trigger] after[j]).ssid.len()
                > 0 implies covered(after, was, after[j].ssid) by {
                assert(before[j] == after[j]);
                let k = choose|k: int|
                    0 <= k < was.len() && before[(#[trigger] was[k]).best as int].ssid
                        == before[j].ssid;
                assert(after[was[k].best as int].ssid == after[j].ssid);
            }
        }
        return ;
    }
    let mut k: usize = 0;
    while k < accs.len() && !bsses[accs[k].best].ssid.same_as(&bss.ssid)
        invariant
            *accs == *old(accs),
            was == accs@,
            all == bss_views(bsses@),
            before == all.take(i as int),
            i < bsses@.len(),
            bss == bsses@[i as int],
            b == bss@,
            k <= accs@.len(),
            forall|m: int| 0 <= m < was.len() ==> (#[trigger] was[m]).best < i,
            forall|m: int| 0 <= m < k ==> before[(#[trigger] was[m]).best as int].ssid != b.ssid,
        decreases accs@.len() - k,
    {
        assert(before[was[k as int].best as int] == bsses@[was[k as int].best as int]@);
        k = k + 1;
    }
    if k < accs.len() {
        let old_best: usize = accs[k].best;
        assert(before[old_best as int] == bsses@[old_best as int]@);
        assert(acc_holds(before, was[k as int]));
        let better = is_weaker(&bsses[old_best], bss);
        let security = accs[k].security.union(bss.security);
        proof {
            lemma_heard_push(before, b, b.ssid);
            lemma_security_push(heard(before, b.ssid), b);
            lemma_strongest_push(before, b, old_best as int);
            lemma_heard_grows(all, i + 1, b.ssid);
        }
        let updated = Acc {
            best: if better { i } else { old_best },
            security,
            count: accs[k].count + 1,
        };
        accs.set(k, updated);
        proof {
            let now = accs@;
            assert(acc_holds(after, updated));
            assert forall|m: int| 0 <= m < now.len() implies acc_holds(after, #[trigger] now[m]) by {
                if m != k {
                    assert(now[m] == was[m]);
                    lemma_strongest_push(before, b, was[m].best as int);
                }
            }
            assert forall|m: int| 0 <= m < now.len() implies after[(#[trigger] now[m]).best as int].ssid
                == before[was[m].best as int].ssid by {
                if m != k {
                    assert(now[m] == was[m]);
                }
            }
            assert forall|m: int, n: int| 0 <= m < n < now.len() implies after[(
            #[trigger] now[m]).best as int].ssid != after[(#[trigger] now[n]).best as int].ssid by {
                assert(before[was[m].best as int].ssid != before[was[n].best as int].ssid);
            }
            assert forall|j: int| 0 <= j < after.len() && (#[trigger] after[j]).ssid.len()
                > 0 implies covered(after, now, after[j].ssid) by {
                if j < i {
                    assert(before[j] == after[j]);
                    let m = choose|m: int|
                        0 <= m < was.len() && before[(#[trigger] was[m]).best as int].ssid
                            == before[j].ssid;
                    assert(after[now[m].best as int].ssid == after[j].ssid);
                } else {
                    assert(after[now[k as int].best as int].ssid == after[j].ssid);
                }
            }
        }
    } else {
        let security = SecurityFlags::empty().union(bss.security);
        accs.push(Acc { best: i, security, count: 1 });
        proof {
            let now = accs@;
            let n = was.len() as int;
            assert forall|j: int| 0 <= j < i implies (#[trigger] before[j]).ssid != b.ssid by {
                if before[j].ssid == b.ssid {
                    let m = choose|m: int|
                        0 <= m < was.len() && before[(#[trigger] was[m]).best as int].ssid
                            == before[j].ssid;
                    assert(before[was[m].best as int].ssid != b.ssid);
                }
            }
            assert(heard(before, b.ssid).len() == 0) by {
                lemma_heard_members(before, b.ssid);
                if heard(before, b.ssid).len() > 0 {
                    let x = heard(before, b.ssid)[0];
                    assert(before.contains(x) && x.ssid == b.ssid);
                }
            }
            assert(heard(before, b.ssid) =~= seq![]);
            lemma_security_push(heard(before, b.ssid), b);
            assert(is_strongest(after, i as int)) by {
                assert forall|j: int| 0 <= j < after.len() && (#[trigger] after[j]).ssid
                    == after[i as int].ssid implies !weaker(after[i as int], after[j]) && (j < i ==> weaker(
                    after[j],
                    after[i as int],
                )) by {
                    if j < i {
                        assert(before[j] == after[j]);
                    }
                }
            }
            assert forall|m: int| 0 <= m < now.len() implies acc_holds(after, #[trigger] now[m]) by {
                if m < n {
                    assert(now[m] == was[m]);
                    assert(acc_holds(before, was[m]));
                    lemma_strongest_push(before, b, was[m].best as int);
                }
            }
            assert forall|m: int, p: int| 0 <= m < p < now.len() implies after[(
            #[trigger] now[m]).best as int].ssid != after[(#[trigger] now[p]).best as int].ssid by {
                assert(now[m] == was[m]);
                if p < n {
                    assert(now[p] == was[p]);
                }
            }
            assert forall|j: int| 0 <= j < after.len() && (#[trigger] after[j]).ssid.len()
                > 0 implies covered(after, now, after[j].ssid) by {
                if j < i {
                    assert(before[j] == after[j]);
                    let m = choose|m: int|
                        0 <= m < was.len() && before[(#[trigger] was[m]).best as int].ssid
                            == before[j].ssid;
                    assert(now[m] == was[m]);
                    assert(after[now[m].best as int].ssid == after[j].ssid);
                } else {
                    assert(after[now[n].best as int].ssid == after[j].ssid);
                }
            }
        }
    }
}

/// Roll up per-BSS observations into per-SSID `VisibleNetwork`s.
///
/// Invariants enforced here so backends cannot drift apart:
/// - Empty SSIDs (zero-byte) are filtered before aggregation.
/// - Within each SSID group, the strongest BSS determines the reported
///   `signal_quality`, `rssi_dbm`, `bssid`, and `frequency_mhz`. Ranking:
///   max `quality`, then known-`rssi_dbm` beats `None`, then greater
///   `rssi_dbm`, then observation order.
/// - `security` is the union across all BSSes broadcasting the SSID.
/// - `bss_count` is the number of (post-filter) BSSes in the group.
/// - Output is sorted by `signal_quality` descending; ties are broken by
///   SSID byte order so the order is deterministic.
pub fn rollup(bsses: Vec<RawBss>, ctx: &ScanContext) -> (networks: Vec<VisibleNetwork>)
    requires
        can_be_counted(bss_views(bsses@)),
    ensures
        is_rollup(bss_views(bsses@), ctx@, network_views(networks@)),
        forall|n: int|
            0 <= n < networks@.len() ==> (#[trigger] networks@[n]).has_saved_profile
                == ctx.saved_ssids@.contains(networks@[n].ssid@),
        forall|n: int|
            0 <= n < networks@.len() ==> (#[trigger] networks@[n]).is_connected == (
            ctx.connected_ssid is Some && ctx.connected_ssid->0@ == networks@[n].ssid@),
{
    let ghost all = bss_views(bsses@);
    let mut accs: Vec<Acc> = Vec::new();
    let mut i: usize = 0;
    while i < bsses.len()
        invariant
            i <= bsses@.len(),
            can_be_counted(bss_views(bsses@)),
            accs_hold(bss_views(bsses@).take(i as int), accs@),
        decreases bsses@.len() - i,
    {
        collect(&bsses, i, &mut accs);
        i = i + 1;
    }
    assert(all.take(all.len() as int) =~= all);

    let mut networks: Vec<VisibleNetwork> = Vec::new();
    let mut k: usize = 0;
    while k < accs.len()
        invariant
            all == bss_views(bsses@),
            accs_hold(all, accs@),
            k <= accs@.len(),
            in_report_order(network_views(networks@)),
            forall|n: int|
                0 <= n < networks@.len() ==> is_summary(all, ctx@, (#[trigger] networks@[n])@),
            forall|n: int|
                0 <= n < networks@.len() ==> exists|m: int|
                    0 <= m < k && (#[trigger] networks@[n]).ssid@ == all[(#[trigger] accs@[m]).best as int].ssid,
            forall|m: int|
                0 <= m < k ==> reports(
                    network_views(networks@),
                    all[(#[trigger] accs@[m]).best as int].ssid,
                ),
        decreases accs@.len() - k,
    {
        let acc = &accs[k];
        assert(acc_holds(all, accs@[k as int]));
        let best = &bsses[acc.best];
        assert(all[acc.best as int] == best@);
        let is_connected = match &ctx.connected_ssid {
            Some(c) => c.same_as(&best.ssid),
            None => false,
        };
        let network = VisibleNetwork {
            ssid: best.ssid.clone(),
            signal_quality: best.quality,
            security: acc.security,
            bss_count: acc.count,
            is_connected,
            has_saved_profile: ctx.saved_ssids.contains(&best.ssid),
            rssi_dbm: best.rssi_dbm,
            bssid: best.bssid,
            frequency_mhz: best.frequency_mhz,
        };
        let ghost was = networks@;
        let ghost added = network;
        assert(network@ == summary(all, acc.best as int, ctx@));
        assert(is_summary(all, ctx@, network@));
        proof {
            assert forall|n: int| 0 <= n < was.len() implies #[trigger] was[n].ssid@
                != network.ssid@ by {
                let m = choose|m: int|
                    0 <= m < k && was[n].ssid@ == all[(#[trigger] accs@[m]).best as int].ssid;
                assert(all[accs@[m].best as int].ssid != all[accs@[k as int].best as int].ssid);
            }
        }
        insert_in_order(&mut networks, network);
        proof {
            let at = choose|at: int|
                0 <= at <= was.len() && #[trigger] was.insert(at, added) == networks@;
            lemma_report_insert(was, at, added);
            assert forall|n: int| 0 <= n < networks@.len() implies is_summary(
                all,
                ctx@,
                (#[trigger] networks@[n])@,
            ) && exists|m: int|
                0 <= m < k + 1 && networks@[n].ssid@ == all[(#[trigger] accs@[m]).best as int].ssid by {
                if n < at {
                    assert(networks@[n] == was[n]);
                } else if n == at {
                    assert(networks@[n].ssid@ == all[accs@[k as int].best as int].ssid);
                } else {
                    assert(networks@[n] == was[n - 1]);
                }
            }
            assert forall|m: int| 0 <= m < k + 1 implies reports(
                network_views(networks@),
                all[(#[trigger] accs@[m]).best as int].ssid,
            ) by {
                if m == k {
                    assert(reports(network_views(networks@), added.ssid@));
                } else {
                    assert(reports(network_views(was), all[accs@[m].best as int].ssid));
                }
            }
        }
        k = k + 1;
    }
    proof {
        let views = network_views(networks@);
        assert forall|n: int| 0 <= n < views.len() implies is_summary(all, ctx@, #[trigger] views[n]) by {
            assert(views[n] == networks@[n]@);
        }
        assert forall|j: int| 0 <= j < all.len() && (#[trigger] all[j]).ssid.len() > 0 implies reports(
            views,
            all[j].ssid,
        ) by {
            let m = choose|m: int|
                0 <= m < accs@.len() && all[(#[trigger] accs@[m]).best as int].ssid == all[j].ssid;
            assert(reports(views, all[accs@[m].best as int].ssid));
        }
    }
    networks
}

pub proof fn lemma_report_insert(was: Seq<VisibleNetwork>, at: int, added: VisibleNetwork)
    requires
        0 <= at <= was.len(),
    ensures
        reports(network_views(was.insert(at, added)), added.ssid@),
        forall|s: Seq<u8>|
            reports(network_views(was), s) ==> reports(network_views(was.insert(at, added)), s),
{
    let now = network_views(was.insert(at, added));
    assert(now[at].ssid == added.ssid@);
    assert forall|s: Seq<u8>| reports(network_views(was), s) implies reports(now, s) by {
        let n = choose|n: int|
            0 <= n < was.len() && (#[trigger] network_views(was)[n]).ssid == s;
        if n < at {
            assert(now[n].ssid == s);
        } else {
            assert(now[n + 1].ssid == s);
        }
    }
}

proof fn lemma_summary_of_ssid(bsses: Seq<BssView>, ctx: ContextView, a: NetworkView, b: NetworkView)
    requires
        is_summary(bsses, ctx, a),
        is_summary(bsses, ctx, b),
        a.ssid == b.ssid,
    ensures
        a == b,
{
    let i = choose|i: int| #[trigger]
        is_strongest(bsses, i) && bsses[i].ssid.len() > 0 && a == summary(bsses, i, ctx);
    let j = choose|j: int| #[trigger]
        is_strongest(bsses, j) && bsses[j].ssid.len() > 0 && b == summary(bsses, j, ctx);
    assert(bsses[i].ssid == bsses[j].ssid);
    assert(i == j);
}

/// No SSID is reported twice.
pub proof fn rollup_reports_each_ssid_once(
    bsses: Seq<BssView>,
    ctx: ContextView,
    networks: Seq<NetworkView>,
)
    requires
        is_rollup(bsses, ctx, networks),
    ensures
        forall|m: int, n: int|
            0 <= m < n < networks.len() ==> (#[trigger] networks[m]).ssid != (
            #[trigger] networks[n]).ssid,
{
    assert forall|m: int, n: int| 0 <= m < n < networks.len() implies (#[trigger] networks[m]).ssid
        != (#[trigger] networks[n]).ssid by {
        if networks[m].ssid == networks[n].ssid {
            lemma_summary_of_ssid(bsses, ctx, networks[m], networks[n]);
            reported_before_is_asymmetric(networks[m], networks[n]);
        }
    }
}

/// Observations and context determine the report completely, its order included.
pub proof fn rollup_is_deterministic(
    bsses: Seq<BssView>,
    ctx: ContextView,
    a: Seq<NetworkView>,
    b: Seq<NetworkView>,
)
    requires
        is_rollup(bsses, ctx, a),
        is_rollup(bsses, ctx, b),
    ensures
        a == b,
{
    lemma_rollup_entries(bsses, ctx, a, b);
    lemma_rollup_entries(bsses, ctx, b, a);
    lemma_same_order(a, b);
}

/// Every entry of one report stands in the other.
proof fn lemma_rollup_entries(
    bsses: Seq<BssView>,
    ctx: ContextView,
    a: Seq<NetworkView>,
    b: Seq<NetworkView>,
)
    requires
        is_rollup(bsses, ctx, a),
        is_rollup(bsses, ctx, b),
    ensures
        forall|n: int| 0 <= n < a.len() ==> b.contains(#[trigger] a[n]),
{
    assert forall|n: int| 0 <= n < a.len() implies b.contains(#[trigger] a[n]) by {
        assert(is_summary(bsses, ctx, a[n]));
        let i = choose|i: int| #[trigger]
            is_strongest(bsses, i) && bsses[i].ssid.len() > 0 && a[n] == summary(bsses, i, ctx);
        assert(reports(b, bsses[i].ssid));
        let m = choose|m: int| 0 <= m < b.len() && (#[trigger] b[m]).ssid == bsses[i].ssid;
        lemma_summary_of_ssid(bsses, ctx, a[n], b[m]);
        assert(b[m] == a[n]);
    }
}

/// Two lists in report order with the same entries are the same list.
proof fn lemma_same_order(a: Seq<NetworkView>, b: Seq<NetworkView>)
    requires
        in_report_order(a),
        in_report_order(b),
        forall|n: int| 0 <= n < a.len() ==> b.contains(#[trigger] a[n]),
        forall|n: int| 0 <= n < b.len() ==> a.contains(#[trigger] b[n]),
    ensures
        a == b,
    decreases a.len(),
{
    if a.len() == 0 {
        if b.len() > 0 {
            assert(a.contains(b[0]));
        }
        assert(a =~= b);
    } else {
        assert(b.contains(a[0]));
        let m = choose|m: int| 0 <= m < b.len() && b[m] == a[0];
        if m > 0 {
            assert(a.contains(b[0]));
            let n = choose|n: int| 0 <= n < a.len() && a[n] == b[0];
            assert(reported_before(b[0], b[m]));
            if n > 0 {
                assert(reported_before(a[0], a[n]));
                reported_before_is_asymmetric(a[0], a[n]);
            } else {
                reported_before_is_asymmetric(b[0], b[m]);
            }
        }
        let x = a.drop_first();
        let y = b.drop_first();
        assert forall|n: int| 0 <= n < x.len() implies y.contains(#[trigger] x[n]) by {
            assert(x[n] == a[n + 1]);
            assert(b.contains(a[n + 1]));
            let p = choose|p: int| 0 <= p < b.len() && b[p] == a[n + 1];
            assert(reported_before(a[0], a[n + 1]));
            if p == 0 {
                reported_before_is_asymmetric(a[0], a[n + 1]);
            }
            assert(y[p - 1] == x[n]);
        }
        assert forall|n: int| 0 <= n < y.len() implies x.contains(#[trigger] y[n]) by {
            assert(y[n] == b[n + 1]);
            assert(a.contains(b[n + 1]));
            let p = choose|p: int| 0 <= p < a.len() && a[p] == b[n + 1];
            assert(reported_before(b[0], b[n + 1]));
            if p == 0 {
                reported_before_is_asymmetric(b[0], b[n + 1]);
            }
            assert(x[p - 1] == y[n]);
        }
        lemma_same_order(x, y);
        assert(a =~= seq![a[0]] + x);
        assert(b =~= seq![b[0]] + y);
    }
}

proof fn lemma_security_includes(group: Seq<BssView>)
    ensures
        forall|k: int| 0 <= k < group.len() ==> security_of(group).includes(
            (#[trigger] group[k]).security,
        ),
    decreases group.len(),
{
    if group.len() > 0 {
        lemma_security_includes(group.drop_last());
        assert forall|k: int| 0 <= k < group.len() implies security_of(group).includes(
            (#[trigger] group[k]).security,
        ) by {
            if k < group.len() - 1 {
                assert(group.drop_last()[k] == group[k]);
            }
        }
    }
}

/// An entry never hides a better observation of its SSID: its quality is at least
/// that of each observation, its security has every advertised mode, it counts
/// the observations, and it stands for at least one.
pub proof fn rollup_covers_every_observation(
    bsses: Seq<BssView>,
    ctx: ContextView,
    networks: Seq<NetworkView>,
    n: int,
    i: int,
)
    requires
        is_rollup(bsses, ctx, networks),
        0 <= n < networks.len(),
        0 <= i < bsses.len(),
        bsses[i].ssid == networks[n].ssid,
    ensures
        networks[n].signal_quality >= bsses[i].quality,
        networks[n].security.includes(bsses[i].security),
        networks[n].bss_count == heard(bsses, bsses[i].ssid).len() > 0,
{
    assert(is_summary(bsses, ctx, networks[n]));
    let s = choose|s: int| #[trigger]
        is_strongest(bsses, s) && bsses[s].ssid.len() > 0 && networks[n] == summary(bsses, s, ctx);
    let group = heard(bsses, bsses[i].ssid);
    lemma_heard_members(bsses, bsses[i].ssid);
    lemma_security_includes(group);
    assert(group.contains(bsses[i]));
    let k = choose|k: int| 0 <= k < group.len() && group[k] == bsses[i];
    assert(security_of(group).includes(group[k].security));
}

/// Networks without a name are never reported.
pub proof fn rollup_reports_no_empty_ssid(
    bsses: Seq<BssView>,
    ctx: ContextView,
    networks: Seq<NetworkView>,
    n: int,
)
    requires
        is_rollup(bsses, ctx, networks),
        0 <= n < networks.len(),
    ensures
        networks[n].ssid.len() > 0,
{
    assert(is_summary(bsses, ctx, networks[n]));
}

/// A report shows at most one network as connected.
pub proof fn rollup_shows_at_most_one_connection(
    bsses: Seq<BssView>,
    ctx: ContextView,
    networks: Seq<NetworkView>,
    m: int,
    n: int,
)
    requires
        is_rollup(bsses, ctx, networks),
        0 <= m < n < networks.len(),
    ensures
        !(networks[m].is_connected && networks[n].is_connected),
{
    rollup_reports_each_ssid_once(bsses, ctx, networks);
    assert(is_summary(bsses, ctx, networks[m]));
    assert(is_summary(bsses, ctx, networks[n]));
    assert(networks[m].ssid != networks[n].ssid);
}

/// How often an observation is heard is how often it stands in the list.
proof fn lemma_heard_count(bsses: Seq<BssView>, ssid: Seq<u8>, b: BssView)
    ensures
        heard(bsses, ssid).to_multiset().count(b) == if b.ssid == ssid {
            bsses.to_multiset().count(b)
        } else {
            0
        },
    decreases bsses.len(),
{
    broadcast use vstd::seq_lib::group_to_multiset_ensures;

    if bsses.len() > 0 {
        let rest = bsses.drop_last();
        lemma_heard_count(rest, ssid, b);
        assert(rest.push(bsses.last()) =~= bsses);
        assert(bsses.to_multiset() =~= rest.to_multiset().insert(bsses.last()));
        if bsses.last().ssid == ssid {
            assert(heard(bsses, ssid).to_multiset() =~= heard(rest, ssid).to_multiset().insert(
                bsses.last(),
            ));
        }
    }
}

/// The security modes of a group are no more than what covers each member.
proof fn lemma_security_within(group: Seq<BssView>, bound: SecurityFlags)
    requires
        forall|k: int| 0 <= k < group.len() ==> bound.includes((#[trigger] group[k]).security),
    ensures
        bound.includes(security_of(group)),
    decreases group.len(),
{
    if group.len() > 0 {
        let rest = group.drop_last();
        assert forall|k: int| 0 <= k < rest.len() implies bound.includes(
            (#[trigger] rest[k]).security,
        ) by {
            assert(rest[k] == group[k]);
        }
        lemma_security_within(rest, bound);
        assert(bound.includes(group[group.len() - 1].security));
    }
}

/// What is heard of an SSID does not depend on the order, but for its own.
proof fn lemma_heard_reordered(bsses: Seq<BssView>, others: Seq<BssView>, ssid: Seq<u8>)
    requires
        bsses.to_multiset() == others.to_multiset(),
    ensures
        heard(bsses, ssid).len() == heard(others, ssid).len(),
        security_of(heard(others, ssid)).includes(security_of(heard(bsses, ssid))),
{
    broadcast use vstd::seq_lib::group_to_multiset_ensures;

    let a = heard(bsses, ssid);
    let b = heard(others, ssid);
    assert forall|x: BssView| a.to_multiset().count(x) == b.to_multiset().count(x) by {
        lemma_heard_count(bsses, ssid, x);
        lemma_heard_count(others, ssid, x);
    }
    assert(a.to_multiset() =~= b.to_multiset());
    assert(a.len() == a.to_multiset().len());
    assert(b.len() == b.to_multiset().len());
    lemma_security_includes(b);
    assert forall|k: int| 0 <= k < a.len() implies security_of(b).includes(
        (#[trigger] a[k]).security,
    ) by {
        assert(a.contains(a[k]));
        assert(a.to_multiset().count(a[k]) > 0);
        assert(b.contains(a[k]));
        let m = choose|m: int| 0 <= m < b.len() && b[m] == a[k];
        assert(security_of(b).includes(b[m].security));
    }
    lemma_security_within(a, security_of(b));
}

/// An entry without what tells equally strong observations apart.
pub open spec fn without_details(network: NetworkView) -> NetworkView {
    NetworkView { bssid: None, frequency_mhz: None, ..network }
}

/// A report without what tells equally strong observations apart.
pub open spec fn report_without_details(networks: Seq<NetworkView>) -> Seq<NetworkView> {
    networks.map_values(|n: NetworkView| without_details(n))
}

proof fn lemma_summary_reordered(
    bsses: Seq<BssView>,
    others: Seq<BssView>,
    ctx: ContextView,
    a: NetworkView,
    b: NetworkView,
)
    requires
        bsses.to_multiset() == others.to_multiset(),
        is_summary(bsses, ctx, a),
        is_summary(others, ctx, b),
        a.ssid == b.ssid,
    ensures
        without_details(a) == without_details(b),
{
    broadcast use vstd::seq_lib::group_to_multiset_ensures;

    let i = choose|i: int| #[trigger]
        is_strongest(bsses, i) && bsses[i].ssid.len() > 0 && a == summary(bsses, i, ctx);
    let j = choose|j: int| #[trigger]
        is_strongest(others, j) && others[j].ssid.len() > 0 && b == summary(others, j, ctx);
    assert(bsses.contains(bsses[i]));
    assert(others.contains(others[j]));
    assert(bsses.to_multiset().count(bsses[i]) > 0);
    assert(others.to_multiset().count(others[j]) > 0);
    assert(others.contains(bsses[i]));
    assert(bsses.contains(others[j]));
    let m = choose|m: int| 0 <= m < others.len() && others[m] == bsses[i];
    let n = choose|n: int| 0 <= n < bsses.len() && bsses[n] == others[j];
    assert(!weaker(others[j], others[m]));
    assert(!weaker(bsses[i], bsses[n]));
    lemma_heard_reordered(bsses, others, a.ssid);
    lemma_heard_reordered(others, bsses, a.ssid);
    let x = security_of(heard(bsses, a.ssid));
    let y = security_of(heard(others, a.ssid));
    assert(x.includes(y) && y.includes(x));
    assert(x == y);
}

proof fn lemma_entries_reordered(
    bsses: Seq<BssView>,
    others: Seq<BssView>,
    ctx: ContextView,
    a: Seq<NetworkView>,
    b: Seq<NetworkView>,
)
    requires
        bsses.to_multiset() == others.to_multiset(),
        is_rollup(bsses, ctx, a),
        is_rollup(others, ctx, b),
    ensures
        forall|n: int|
            0 <= n < a.len() ==> report_without_details(b).contains(
                #[trigger] report_without_details(a)[n],
            ),
{
    broadcast use vstd::seq_lib::group_to_multiset_ensures;

    let x = report_without_details(a);
    let y = report_without_details(b);
    assert forall|n: int| 0 <= n < a.len() implies y.contains(#[trigger] x[n]) by {
        assert(is_summary(bsses, ctx, a[n]));
        let i = choose|i: int| #[trigger]
            is_strongest(bsses, i) && bsses[i].ssid.len() > 0 && a[n] == summary(bsses, i, ctx);
        assert(bsses.contains(bsses[i]));
        assert(bsses.to_multiset().count(bsses[i]) > 0);
        assert(others.contains(bsses[i]));
        let k = choose|k: int| 0 <= k < others.len() && others[k] == bsses[i];
        assert(reports(b, others[k].ssid));
        let m = choose|m: int| 0 <= m < b.len() && (#[trigger] b[m]).ssid == others[k].ssid;
        assert(is_summary(others, ctx, b[m]));
        lemma_summary_reordered(bsses, others, ctx, a[n], b[m]);
        assert(y[m] == x[n]);
    }
}

proof fn lemma_order_without_details(networks: Seq<NetworkView>)
    requires
        in_report_order(networks),
    ensures
        in_report_order(report_without_details(networks)),
{
    let x = report_without_details(networks);
    assert forall|i: int, j: int| 0 <= i < j < x.len() implies reported_before(
        #[trigger] x[i],
        #[trigger] x[j],
    ) by {
        assert(reported_before(networks[i], networks[j]));
    }
}

/// The order of the observations does not matter, but for which of several
/// equally strong ones lends an entry its BSSID and frequency.
pub proof fn rollup_ignores_the_order(
    bsses: Seq<BssView>,
    others: Seq<BssView>,
    ctx: ContextView,
    a: Seq<NetworkView>,
    b: Seq<NetworkView>,
)
    requires
        bsses.to_multiset() == others.to_multiset(),
        is_rollup(bsses, ctx, a),
        is_rollup(others, ctx, b),
    ensures
        a.len() == b.len(),
        forall|n: int|
            0 <= n < a.len() ==> without_details(#[trigger] a[n]) == without_details(
                #[trigger] b[n],
            ),
{
    let x = report_without_details(a);
    let y = report_without_details(b);
    lemma_entries_reordered(bsses, others, ctx, a, b);
    lemma_entries_reordered(others, bsses, ctx, b, a);
    lemma_order_without_details(a);
    lemma_order_without_details(b);
    lemma_same_order(x, y);
    assert(a.len() == x.len() == y.len() == b.len());
    assert forall|n: int| 0 <= n < a.len() implies without_details(#[trigger] a[n])
        == without_details(#[trigger] b[n]) by {
        assert(x[n] == without_details(a[n]));
        assert(y[n] == without_details(b[n]));
    }
}

/// An entry counts as connected exactly when its SSID is the one in use, and as
/// saved exactly when its SSID is among the saved ones; neither depends on the
/// other.
pub proof fn rollup_stamps_the_context(
    bsses: Seq<BssView>,
    ctx: ContextView,
    networks: Seq<NetworkView>,
    n: int,
)
    requires
        is_rollup(bsses, ctx, networks),
        0 <= n < networks.len(),
    ensures
        networks[n].is_connected <==> ctx.connected == Some(networks[n].ssid),
        networks[n].has_saved_profile <==> ctx.saved.contains(networks[n].ssid),
{
    assert(is_summary(bsses, ctx, networks[n]));
}

/// Every entry takes its quality, strength, BSSID and frequency from one
/// observation of its SSID. No observation of the SSID has a better quality, nor
/// at the same quality a known strength that is greater; and of those that are
/// equally strong it is the first.
pub proof fn rollup_reports_the_strongest(
    bsses: Seq<BssView>,
    ctx: ContextView,
    networks: Seq<NetworkView>,
    n: int,
) -> (i: int)
    requires
        is_rollup(bsses, ctx, networks),
        0 <= n < networks.len(),
    ensures
        0 <= i < bsses.len(),
        bsses[i].ssid == networks[n].ssid,
        bsses[i].quality == networks[n].signal_quality,
        bsses[i].rssi_dbm == networks[n].rssi_dbm,
        bsses[i].bssid == networks[n].bssid,
        bsses[i].frequency_mhz == networks[n].frequency_mhz,
        forall|j: int|
            0 <= j < bsses.len() && (#[trigger] bsses[j]).ssid == networks[n].ssid ==> {
                &&& bsses[j].quality <= bsses[i].quality
                &&& bsses[j].quality == bsses[i].quality && bsses[j].rssi_dbm is Some
                    ==> bsses[i].rssi_dbm is Some && bsses[j].rssi_dbm->0 <= bsses[i].rssi_dbm->0
                &&& bsses[j].quality == bsses[i].quality && bsses[j].rssi_dbm
                    == bsses[i].rssi_dbm ==> i <= j
            },
{
    assert(is_summary(bsses, ctx, networks[n]));
    let i = choose|i: int| #[trigger]
        is_strongest(bsses, i) && bsses[i].ssid.len() > 0 && networks[n] == summary(bsses, i, ctx);
    assert forall|j: int|
        0 <= j < bsses.len() && (#[trigger] bsses[j]).ssid == networks[n].ssid implies {
        &&& bsses[j].quality <= bsses[i].quality
        &&& bsses[j].quality == bsses[i].quality && bsses[j].rssi_dbm is Some
            ==> bsses[i].rssi_dbm is Some && bsses[j].rssi_dbm->0 <= bsses[i].rssi_dbm->0
        &&& bsses[j].quality == bsses[i].quality && bsses[j].rssi_dbm == bsses[i].rssi_dbm ==> i
            <= j
    } by {
        assert(!weaker(bsses[i], bsses[j]));
        assert(j < i ==> weaker(bsses[j], bsses[i]));
    }
    i
}

proof fn lemma_heard_is_filtered(bsses: Seq<BssView>, ssid: Seq<u8>)
    ensures
        heard(bsses, ssid) == bsses.filter(|b: BssView| b.ssid == ssid),
    decreases bsses.len(),
{
    reveal(Seq::filter);
    if bsses.len() > 0 {
        lemma_heard_is_filtered(bsses.drop_last(), ssid);
    }
}

/// An entry counts the observations of its SSID, and each security mode is set
/// exactly when one of them advertises it.
pub proof fn rollup_sums_up_its_observations(
    bsses: Seq<BssView>,
    ctx: ContextView,
    networks: Seq<NetworkView>,
    n: int,
)
    requires
        is_rollup(bsses, ctx, networks),
        0 <= n < networks.len(),
    ensures
        ({
            let ssid = networks[n].ssid;
            let heard_of = bsses.filter(|b: BssView| b.ssid == ssid);
            let modes = networks[n].security;
            &&& networks[n].bss_count == heard_of.len()
            &&& modes.open <==> exists|k: int|
                0 <= k < heard_of.len() && (#[trigger] heard_of[k]).security.open
            &&& modes.wep <==> exists|k: int|
                0 <= k < heard_of.len() && (#[trigger] heard_of[k]).security.wep
            &&& modes.wpa_psk <==> exists|k: int|
                0 <= k < heard_of.len() && (#[trigger] heard_of[k]).security.wpa_psk
            &&& modes.wpa2_psk <==> exists|k: int|
                0 <= k < heard_of.len() && (#[trigger] heard_of[k]).security.wpa2_psk
            &&& modes.wpa3_sae <==> exists|k: int|
                0 <= k < heard_of.len() && (#[trigger] heard_of[k]).security.wpa3_sae
            &&& modes.wpa2_enterprise <==> exists|k: int|
                0 <= k < heard_of.len() && (#[trigger] heard_of[k]).security.wpa2_enterprise
            &&& modes.wpa3_enterprise <==> exists|k: int|
                0 <= k < heard_of.len() && (#[trigger] heard_of[k]).security.wpa3_enterprise
            &&& modes.owe <==> exists|k: int|
                0 <= k < heard_of.len() && (#[trigger] heard_of[k]).security.owe
        }),
{
    assert(is_summary(bsses, ctx, networks[n]));
    let ssid = networks[n].ssid;
    lemma_heard_is_filtered(bsses, ssid);
    lemma_security_members(heard(bsses, ssid));
}

proof fn lemma_security_members(group: Seq<BssView>)
    ensures
        security_of(group).open <==> exists|k: int|
            0 <= k < group.len() && (#[trigger] group[k]).security.open,
        security_of(group).wep <==> exists|k: int|
            0 <= k < group.len() && (#[trigger] group[k]).security.wep,
        security_of(group).wpa_psk <==> exists|k: int|
            0 <= k < group.len() && (#[trigger] group[k]).security.wpa_psk,
        security_of(group).wpa2_psk <==> exists|k: int|
            0 <= k < group.len() && (#[trigger] group[k]).security.wpa2_psk,
        security_of(group).wpa3_sae <==> exists|k: int|
            0 <= k < group.len() && (#[trigger] group[k]).security.wpa3_sae,
        security_of(group).wpa2_enterprise <==> exists|k: int|
            0 <= k < group.len() && (#[trigger] group[k]).security.wpa2_enterprise,
        security_of(group).wpa3_enterprise <==> exists|k: int|
            0 <= k < group.len() && (#[trigger] group[k]).security.wpa3_enterprise,
        security_of(group).owe <==> exists|k: int|
            0 <= k < group.len() && (#[trigger] group[k]).security.owe,
{
    lemma_security_includes(group);
    let bound = SecurityFlags {
        open: exists|k: int| 0 <= k < group.len() && (#[trigger] group[k]).security.open,
        wep: exists|k: int| 0 <= k < group.len() && (#[trigger] group[k]).security.wep,
        wpa_psk: exists|k: int| 0 <= k < group.len() && (#[trigger] group[k]).security.wpa_psk,
        wpa2_psk: exists|k: int| 0 <= k < group.len() && (#[trigger] group[k]).security.wpa2_psk,
        wpa3_sae: exists|k: int| 0 <= k < group.len() && (#[trigger] group[k]).security.wpa3_sae,
        wpa2_enterprise: exists|k: int|
            0 <= k < group.len() && (#[trigger] group[k]).security.wpa2_enterprise,
        wpa3_enterprise: exists|k: int|
            0 <= k < group.len() && (#[trigger] group[k]).security.wpa3_enterprise,
        owe: exists|k: int| 0 <= k < group.len() && (#[trigger] group[k]).security.owe,
    };
    lemma_security_within(group, bound);
}

/// Every observed SSID that is not empty has an entry, and every entry was
/// observed.
pub proof fn rollup_leaves_nothing_out(
    bsses: Seq<BssView>,
    ctx: ContextView,
    networks: Seq<NetworkView>,
    ssid: Seq<u8>,
)
    requires
        is_rollup(bsses, ctx, networks),
    ensures
        (exists|n: int| 0 <= n < networks.len() && (#[trigger] networks[n]).ssid == ssid) <==> (
        ssid.len() > 0 && exists|i: int| 0 <= i < bsses.len() && (#[trigger] bsses[i]).ssid == ssid),
{
    if exists|n: int| 0 <= n < networks.len() && (#[trigger] networks[n]).ssid == ssid {
        let n = choose|n: int| 0 <= n < networks.len() && (#[trigger] networks[n]).ssid == ssid;
        assert(is_summary(bsses, ctx, networks[n]));
        let i = choose|i: int| #[trigger]
            is_strongest(bsses, i) && bsses[i].ssid.len() > 0 && networks[n] == summary(
                bsses,
                i,
                ctx,
            );
        assert(bsses[i].ssid == ssid);
    }
    if ssid.len() > 0 && exists|i: int| 0 <= i < bsses.len() && (#[trigger] bsses[i]).ssid == ssid {
        let i = choose|i: int| 0 <= i < bsses.len() && (#[trigger] bsses[i]).ssid == ssid;
        assert(reports(networks, bsses[i].ssid));
    }
}

/// The better signal is reported first; among equals the SSID that comes first
/// byte by byte, a shorter one before what it begins.
pub proof fn rollup_sorts_by_quality_and_ssid(
    bsses: Seq<BssView>,
    ctx: ContextView,
    networks: Seq<NetworkView>,
    m: int,
    n: int,
)
    requires
        is_rollup(bsses, ctx, networks),
        0 <= m < n < networks.len(),
    ensures
        networks[m].signal_quality >= networks[n].signal_quality,
        networks[m].signal_quality == networks[n].signal_quality ==> exists|k: int|
            0 <= k <= networks[m].ssid.len() && k < networks[n].ssid.len() && (
            #[trigger] networks[m].ssid.take(k)) == networks[n].ssid.take(k) && (k
                == networks[m].ssid.len() || networks[m].ssid[k] < networks[n].ssid[k]),
{
    assert(reported_before(networks[m], networks[n]));
    if networks[m].signal_quality == networks[n].signal_quality {
        bytes_less_goes_by_the_first_difference(networks[m].ssid, networks[n].ssid);
    }
}

/// The quality is 0 up to -100 dBm and 100 from -50 dBm on, and in between every
/// dBm is worth 2.
pub proof fn quality_rises_by_two(rssi_dbm: int)
    ensures
        rssi_dbm <= -100 ==> quality_of(rssi_dbm) == 0,
        rssi_dbm >= -50 ==> quality_of(rssi_dbm) == 100,
        -100 <= rssi_dbm < -50 ==> quality_of(rssi_dbm + 1) == quality_of(rssi_dbm) + 2,
{
}

/// Each band is one range of frequencies, and no two bands share one.
pub proof fn bands_are_ranges(mhz: int)
    ensures
        band_of(mhz) == Some(Band::Ghz2_4) <==> 2400 <= mhz && mhz <= 2500,
        band_of(mhz) == Some(Band::Ghz5) <==> 4915 <= mhz && mhz <= 5825,
        band_of(mhz) == Some(Band::Ghz6) <==> 5925 <= mhz && mhz <= 7125,
{
}

/// What the views of observations, entries and contexts say is what they hold.
pub proof fn scan_views_are_faithful(bss: RawBss, network: VisibleNetwork, ctx: ScanContext)
    ensures
        bss@.ssid == bss.ssid@ && bss@.security == bss.security && bss@.rssi_dbm == bss.rssi_dbm
            && bss@.quality == bss.quality && bss@.bssid == bss.bssid && bss@.frequency_mhz
            == bss.frequency_mhz,
        network@.ssid == network.ssid@ && network@.signal_quality == network.signal_quality
            && network@.security == network.security && network@.bss_count == network.bss_count
            && network@.is_connected == network.is_connected && network@.has_saved_profile
            == network.has_saved_profile && network@.rssi_dbm == network.rssi_dbm
            && network@.bssid == network.bssid && network@.frequency_mhz == network.frequency_mhz,
        ctx@.saved == ctx.saved_ssids@,
        match ctx.connected_ssid {
            Some(ssid) => ctx@.connected == Some(ssid@),
            None => ctx@.connected is None,
        },
{
}

/// A list of observations is seen one for one, and an SSID that is there as its
/// octets.
pub proof fn observation_lists_are_faithful(bsses: Seq<RawBss>, k: int, ssid: Ssid)
    requires
        0 <= k < bsses.len(),
    ensures
        bss_views(bsses).len() == bsses.len(),
        bss_views(bsses)[k] == bsses[k]@,
        optional_ssid(Some(ssid)) == Some(ssid@),
        optional_ssid(None) is None,
{
}

} // verus!
