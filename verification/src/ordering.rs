//! The order in which visible networks are reported: strongest first, ties by
//! SSID octets.

use vstd::prelude::*;

use crate::types::{NetworkView, VisibleNetwork};

verus! {

/// `a` and `b` agree up to `i`, and there `a` ends or has the smaller octet.
pub open spec fn less_at(a: Seq<u8>, b: Seq<u8>, i: int) -> bool {
    &&& 0 <= i <= a.len()
    &&& i < b.len()
    &&& forall|k: int| 0 <= k < i ==> a[k] == b[k]
    &&& i < a.len() ==> a[i] < b[i]
}

/// `a` comes before `b` in the lexicographic order of octet strings.
pub open spec fn bytes_less(a: Seq<u8>, b: Seq<u8>) -> bool {
    exists|i: int| less_at(a, b, i)
}

/// No octet string comes before itself, and not both of two come before the other.
pub proof fn bytes_less_is_asymmetric(a: Seq<u8>, b: Seq<u8>)
    requires
        bytes_less(a, b),
    ensures
        !bytes_less(b, a),
        a != b,
{
    let i = choose|i: int| less_at(a, b, i);
    if bytes_less(b, a) {
        let j = choose|j: int| less_at(b, a, j);
        if i < j {
            assert(b[i] == a[i]);
        } else if j < i {
            assert(a[j] == b[j]);
        }
    }
    if a == b {
        assert(less_at(b, a, i));
    }
}

/// The order of octet strings is transitive.
pub proof fn bytes_less_is_transitive(a: Seq<u8>, b: Seq<u8>, c: Seq<u8>)
    requires
        bytes_less(a, b),
        bytes_less(b, c),
    ensures
        bytes_less(a, c),
{
    let i = choose|i: int| less_at(a, b, i);
    let j = choose|j: int| less_at(b, c, j);
    let k = if i < j {
        i
    } else {
        j
    };
    assert(less_at(a, c, k)) by {
        assert forall|m: int| 0 <= m < k implies a[m] == c[m] by {
            assert(a[m] == b[m]);
            assert(b[m] == c[m]);
        }
        if i < j {
            assert(b[i] == c[i]);
        } else if j < i {
            assert(a[j] == b[j]);
        }
    }
}

/// Whether `a` comes before `b` in the lexicographic order of octet strings.
fn octets_less(a: &[u8], b: &[u8]) -> (r: bool)
    ensures
        r == bytes_less(a@, b@),
        !r ==> a@ == b@ || bytes_less(b@, a@),
{
    let mut i: usize = 0;
    while i < a.len() && i < b.len()
        invariant
            i <= a@.len(),
            i <= b@.len(),
            forall|k: int| 0 <= k < i ==> a@[k] == b@[k],
        decreases a@.len() - i,
    {
        if a[i] < b[i] {
            assert(less_at(a@, b@, i as int));
            return true;
        }
        if b[i] < a[i] {
            assert(less_at(b@, a@, i as int));
            proof {
                bytes_less_is_asymmetric(b@, a@);
            }
            return false;
        }
        i = i + 1;
    }
    if i < b.len() {
        assert(less_at(a@, b@, i as int));
        true
    } else if i < a.len() {
        assert(less_at(b@, a@, i as int));
        proof {
            bytes_less_is_asymmetric(b@, a@);
        }
        false
    } else {
        assert(a@ =~= b@);
        proof {
            if bytes_less(a@, b@) {
                bytes_less_is_asymmetric(a@, b@);
            }
        }
        false
    }
}

/// `a` is reported before `b`: it has the better signal, or the same and the
/// smaller SSID.
pub open spec fn reported_before(a: NetworkView, b: NetworkView) -> bool {
    a.signal_quality > b.signal_quality || (a.signal_quality == b.signal_quality && bytes_less(
        a.ssid,
        b.ssid,
    ))
}

/// Every network is reported before all that follow it.
pub open spec fn in_report_order(networks: Seq<NetworkView>) -> bool {
    forall|i: int, j: int|
        0 <= i < j < networks.len() ==> reported_before(#[trigger] networks[i], #[trigger] networks[j])
}

/// Only one of two networks is reported before the other, and never itself.
pub proof fn reported_before_is_asymmetric(a: NetworkView, b: NetworkView)
    requires
        reported_before(a, b),
    ensures
        !reported_before(b, a),
        a != b,
{
    if bytes_less(a.ssid, b.ssid) {
        bytes_less_is_asymmetric(a.ssid, b.ssid);
    }
}

/// The report order is transitive.
pub proof fn reported_before_is_transitive(a: NetworkView, b: NetworkView, c: NetworkView)
    requires
        reported_before(a, b),
        reported_before(b, c),
    ensures
        reported_before(a, c),
{
    if a.signal_quality == b.signal_quality && b.signal_quality == c.signal_quality {
        bytes_less_is_transitive(a.ssid, b.ssid, c.ssid);
    }
}

fn goes_before(a: &VisibleNetwork, b: &VisibleNetwork) -> (r: bool)
    ensures
        r == reported_before(a@, b@),
        !r ==> a@.ssid == b@.ssid || reported_before(b@, a@),
{
    if a.signal_quality != b.signal_quality {
        a.signal_quality > b.signal_quality
    } else {
        octets_less(a.ssid.as_bytes(), b.ssid.as_bytes())
    }
}

/// What a list of networks says.
pub open spec fn network_views(networks: Seq<VisibleNetwork>) -> Seq<NetworkView> {
    networks.map_values(|n: VisibleNetwork| n@)
}

/// Puts a network with a new SSID into a list that is in report order.
pub fn insert_in_order(networks: &mut Vec<VisibleNetwork>, network: VisibleNetwork)
    requires
        in_report_order(network_views(old(networks)@)),
        forall|i: int|
            0 <= i < old(networks)@.len() ==> #[trigger] old(networks)@[i].ssid@ != network.ssid@,
    ensures
        in_report_order(network_views(final(networks)@)),
        exists|at: int|
            0 <= at <= old(networks)@.len() && #[trigger] old(networks)@.insert(at, network)
                == final(networks)@,
{
    let ghost was = network_views(networks@);
    let mut at: usize = 0;
    while at < networks.len() && goes_before(&networks[at], &network)
        invariant
            *networks == *old(networks),
            at <= networks@.len(),
            forall|k: int| 0 <= k < at ==> reported_before(#[trigger] networks@[k]@, network@),
        decreases networks@.len() - at,
    {
        at = at + 1;
    }
    networks.insert(at, network);
    assert(networks@ == old(networks)@.insert(at as int, network));
    proof {
        let now = network_views(networks@);
        if at < was.len() {
            assert(was[at as int] == old(networks)@[at as int]@);
            assert(reported_before(network@, was[at as int]));
        }
        assert forall|i: int, j: int| 0 <= i < j < now.len() implies reported_before(
            #[trigger] now[i],
            #[trigger] now[j],
        ) by {
            if j < at {
                assert(now[i] == was[i] && now[j] == was[j]);
            } else if j == at {
                assert(now[i] == old(networks)@[i]@);
            } else if i < at {
                assert(now[i] == was[i] && now[j] == was[j - 1]);
            } else if i == at {
                assert(now[j] == was[j - 1]);
                if j - 1 > at {
                    reported_before_is_transitive(network@, was[at as int], was[j - 1]);
                }
            } else {
                assert(now[i] == was[i - 1] && now[j] == was[j - 1]);
            }
        }
    }
}

/// The order of SSIDs is decided at the first byte in which they differ: the one
/// with the smaller byte there comes first, or the one that ends there.
pub proof fn bytes_less_goes_by_the_first_difference(a: Seq<u8>, b: Seq<u8>)
    ensures
        bytes_less(a, b) <==> exists|k: int|
            0 <= k <= a.len() && k < b.len() && #[trigger] a.take(k) == b.take(k) && (k == a.len()
                || a[k] < b[k]),
{
    if bytes_less(a, b) {
        let k = choose|k: int| less_at(a, b, k);
        assert(a.take(k) =~= b.take(k));
    }
    if exists|k: int|
        0 <= k <= a.len() && k < b.len() && #[trigger] a.take(k) == b.take(k) && (k == a.len() || a[k]
            < b[k]) {
        let k = choose|k: int|
            0 <= k <= a.len() && k < b.len() && #[trigger] a.take(k) == b.take(k) && (k == a.len()
                || a[k] < b[k]);
        assert forall|i: int| 0 <= i < k implies a[i] == b[i] by {
            assert(a.take(k)[i] == b.take(k)[i]);
        }
        assert(less_at(a, b, k));
    }
}

/// Of two networks in a report, the first has the better signal, or the same and
/// the SSID that comes first byte by byte.
pub proof fn reports_go_by_quality_and_ssid(networks: Seq<NetworkView>, m: int, n: int)
    requires
        in_report_order(networks),
        0 <= m < n < networks.len(),
    ensures
        networks[m].signal_quality >= networks[n].signal_quality,
        networks[m].signal_quality == networks[n].signal_quality ==> exists|k: int|
            0 <= k <= networks[m].ssid.len() && k < networks[n].ssid.len() && (
            #[trigger] networks[m].ssid.take(k)) == networks[n].ssid.take(k) && (k
                == networks[m].ssid.len() || networks[m].ssid[k] < networks[n].ssid[k]),
{
    assert(reported_before(networks[m], networks[n]));
    if networks[m].signal_quality == networks[n].signal_quality {
        bytes_less_goes_by_the_first_difference(networks[m].ssid, networks[n].ssid);
    }
}

} // verus!
