//! On-demand connect to a specific AP via `WifiNetworkSpecifier` +
//! `ConnectivityManager.requestNetwork`.
//!
//! The `Network` to bind is found by noting the handles of all networks *before*
//! the request, then binding the newly-appeared Wi-Fi network. Then the connect
//! waits until DHCP has assigned an IPv4 address.

use std::time::Duration;

use vstd::prelude::*;

use crate::error::{Error, ErrorView};

verus! {

/// How far a connect has got.
#[derive(Debug, PartialEq, Eq, Clone, Copy, Structural)]
pub enum SpecifierPhase {
    /// No new Wi-Fi network is bound yet.
    Searching,
    /// The process is bound to the network; DHCP may not have completed.
    Bound,
}

/// What to do after one round.
#[derive(Debug)]
pub enum SpecifierStep {
    /// The connection is up.
    Connected,
    /// Sleep, then look again in that phase.
    Sleep(SpecifierPhase),
    /// Release the request and report the error.
    GiveUp(Error),
}

/// What a round comes to. `progress` is whether the phase was completed in it: a
/// network was bound while searching, or an IPv4 address was seen on the bound
/// one. Binding and the address are never taken in the same round.
pub fn connect_via_specifier(
    phase: SpecifierPhase,
    progress: bool,
    expired: bool,
    timeout: Duration,
) -> (r: SpecifierStep)
    ensures
        r is Connected <==> phase == SpecifierPhase::Bound && progress,
        r matches SpecifierStep::GiveUp(e) ==> e@ == ErrorView::Timeout(timeout),
        r is GiveUp <==> expired && !(phase == SpecifierPhase::Bound && progress),
        r matches SpecifierStep::Sleep(next) ==> next == (if phase == SpecifierPhase::Bound
            || progress {
            SpecifierPhase::Bound
        } else {
            SpecifierPhase::Searching
        }),
{
    let next = match phase {
        SpecifierPhase::Searching => if progress {
            SpecifierPhase::Bound
        } else {
            SpecifierPhase::Searching
        },
        SpecifierPhase::Bound => {
            if progress {
                return SpecifierStep::Connected;
            }
            SpecifierPhase::Bound
        },
    };
    if expired {
        return SpecifierStep::GiveUp(Error::Timeout(timeout));
    }
    SpecifierStep::Sleep(next)
}

/// A network as `getAllNetworks` lists it.
#[derive(Debug, Clone, Copy)]
pub struct NetworkReading {
    /// `getNetworkHandle`.
    pub handle: i64,
    /// Whether its capabilities could be read and have the Wi-Fi transport.
    pub is_wifi: bool,
}

/// A Wi-Fi network that was not there before.
pub open spec fn is_new_wifi(before: Seq<i64>, network: NetworkReading) -> bool {
    network.is_wifi && !before.contains(network.handle)
}

/// Whether a network with that handle was present before. Nothing more is asked of
/// one that was.
pub fn was_there(before: &Vec<i64>, handle: i64) -> (r: bool)
    ensures
        r == before@.contains(handle),
{
    let mut i: usize = 0;
    while i < before.len()
        invariant
            i <= before@.len(),
            forall|k: int| 0 <= k < i ==> before@[k] != handle,
        decreases before@.len() - i,
    {
        if before[i] == handle {
            return true;
        }
        i = i + 1;
    }
    false
}

/// The next network to try to bind, at or after `from`: a Wi-Fi network whose
/// handle was not present in `before`.
pub fn try_bind_new_wifi(before: &Vec<i64>, networks: &Vec<NetworkReading>, from: usize) -> (r: Option<
    usize,
>)
    ensures
        r matches Some(i) ==> from <= i < networks@.len() && is_new_wifi(before@, networks@[i as int])
            && forall|k: int| from <= k < i ==> !is_new_wifi(before@, #[trigger] networks@[k]),
        r is None ==> forall|k: int|
            from <= k < networks@.len() ==> !is_new_wifi(before@, #[trigger] networks@[k]),
{
    let mut i: usize = from;
    while i < networks.len()
        invariant
            from <= i,
            i <= networks@.len() || i == from,
            forall|k: int| from <= k < i ==> !is_new_wifi(before@, #[trigger] networks@[k]),
        decreases networks@.len() - i,
    {
        if networks[i].is_wifi && !was_there(before, networks[i].handle) {
            return Some(i);
        }
        i = i + 1;
    }
    None
}

/// Whether one of the link addresses is an IPv4 address; each entry says whether
/// that address is one. Missing link properties or addresses are an empty list.
pub fn network_has_ipv4(addresses: &Vec<bool>) -> (r: bool)
    ensures
        r == exists|k: int| 0 <= k < addresses@.len() && #[trigger] addresses@[k],
{
    let mut i: usize = 0;
    while i < addresses.len()
        invariant
            i <= addresses@.len(),
            forall|k: int| 0 <= k < i ==> !addresses@[k],
        decreases addresses@.len() - i,
    {
        if addresses[i] {
            assert(addresses@[i as int]);
            return true;
        }
        i = i + 1;
    }
    false
}

/// A network is a new Wi-Fi network exactly when it has the transport and no
/// network had its handle before.
pub proof fn new_networks_have_new_handles(before: Seq<i64>, network: NetworkReading)
    ensures
        is_new_wifi(before, network) <==> network.is_wifi && forall|k: int|
            0 <= k < before.len() ==> #[trigger] before[k] != network.handle,
{
}

} // verus!
