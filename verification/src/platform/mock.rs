//! In-memory backend for unit / integration tests in consuming crates.
//!
//! The mock exposes `MockState` so tests can script visible SSIDs and stored
//! profiles.

use vstd::prelude::*;

use crate::assoc::{AssocMap, ProfileKey};
use crate::backend::{adapter_views, copy_adapters, has_adapter, lists_adapter, AdapterInfo, AdapterView};
use crate::connection::WifiConnection;
use crate::error::{failure, Error, ErrorView};
use crate::flags::SecurityFlags;
use crate::ordering::{
    in_report_order, insert_in_order, network_views, reported_before, reported_before_is_asymmetric,
};
use crate::scan_rollup::reports;
use crate::types::{
    ssid_display, AdapterId, ConnectOptions, Credentials, NetworkView, ScanOptions, Ssid, VisibleNetwork,
};

verus! {

broadcast use vstd::string::group_string_axioms;

/// Scriptable per-network properties for `MockState::add_visible_network`.
#[derive(Clone, Copy, Debug)]
pub struct VisibleNetworkProps {
    pub signal_quality: u8,
    pub security: SecurityFlags,
    pub rssi_dbm: Option<i16>,
    pub bssid: Option<[u8; 6]>,
    pub frequency_mhz: Option<u32>,
    pub bss_count: u32,
}

/// The properties of a network that was added without any.
pub open spec fn default_props() -> VisibleNetworkProps {
    VisibleNetworkProps {
        signal_quality: 75,
        security: SecurityFlags::wpa2_psk(),
        rssi_dbm: None,
        bssid: None,
        frequency_mhz: None,
        bss_count: 1,
    }
}

impl Default for VisibleNetworkProps {
    fn default() -> (r: VisibleNetworkProps)
        ensures
            r == default_props(),
    {
        VisibleNetworkProps {
            signal_quality: 75,
            security: SecurityFlags::wpa2_psk(),
            rssi_dbm: None,
            bssid: None,
            frequency_mhz: None,
            bss_count: 1,
        }
    }
}

/// A network of the simulated radio environment.
struct MockNetwork {
    password: String,
    props: VisibleNetworkProps,
}

/// Mutable state inspectable from tests in the consuming crate.
pub struct MockState {
    /// Adapters reported by `list_adapters`.
    adapters: Vec<AdapterInfo>,
    /// SSID to true password and scriptable scan properties.
    visible: AssocMap<Ssid, MockNetwork>,
    /// Passwords of the profiles installed by previous `connect` calls.
    profiles: AssocMap<ProfileKey, String>,
    /// Currently connected SSID per adapter.
    connected: AssocMap<AdapterId, Ssid>,
}

/// A network of the simulated radio environment.
pub struct MockNetworkView {
    pub password: Seq<char>,
    pub props: VisibleNetworkProps,
}

/// What a [`MockState`] says.
#[verifier::ext_equal]
pub struct MockStateView {
    pub adapters: Seq<AdapterView>,
    pub visible: Map<Seq<u8>, MockNetworkView>,
    /// Passwords by adapter and SSID.
    pub profiles: Map<(Seq<char>, Seq<u8>), Seq<char>>,
    /// SSIDs by adapter.
    pub connected: Map<Seq<char>, Seq<u8>>,
}

spec fn visible_view(m: Map<Seq<u8>, MockNetwork>) -> Map<Seq<u8>, MockNetworkView> {
    m.map_values(|n: MockNetwork| MockNetworkView { password: n.password@, props: n.props })
}

spec fn profiles_view(m: Map<(Seq<char>, Seq<u8>), String>) -> Map<
    (Seq<char>, Seq<u8>),
    Seq<char>,
> {
    m.map_values(|s: String| s@)
}

spec fn connected_view(m: Map<Seq<char>, Ssid>) -> Map<Seq<char>, Seq<u8>> {
    m.map_values(|s: Ssid| s@)
}

impl View for MockState {
    type V = MockStateView;

    closed spec fn view(&self) -> MockStateView {
        MockStateView {
            adapters: adapter_views(self.adapters@),
            visible: visible_view(self.visible@),
            profiles: profiles_view(self.profiles@),
            connected: connected_view(self.connected@),
        }
    }
}

/// What is left of an attempt: the state after it, and the error if it failed.
pub struct Attempt {
    pub state: MockStateView,
    pub error: Option<ErrorView>,
}

/// The state in which `adapter` is connected to `ssid`.
pub open spec fn with_connection(s: MockStateView, adapter: Seq<char>, ssid: Seq<u8>) -> MockStateView {
    MockStateView { connected: s.connected.insert(adapter, ssid), ..s }
}

/// A connect with explicit credentials. Every network counts as protected, so
/// connecting without a password is a failed authentication.
pub open spec fn connect_attempt(
    s: MockStateView,
    adapter: Seq<char>,
    ssid: Seq<u8>,
    credentials: Option<Seq<char>>,
) -> Attempt {
    if !s.visible.contains_key(ssid) {
        Attempt { state: s, error: Some(ErrorView::SsidNotInRange) }
    } else if credentials != Some(s.visible[ssid].password) {
        Attempt { state: s, error: Some(ErrorView::AuthenticationFailed) }
    } else {
        Attempt {
            state: MockStateView {
                profiles: s.profiles.insert((adapter, ssid), s.visible[ssid].password),
                ..with_connection(s, adapter, ssid)
            },
            error: None,
        }
    }
}

/// A connect with the password of the stored profile.
pub open spec fn stored_attempt(s: MockStateView, adapter: Seq<char>, ssid: Seq<u8>) -> Attempt {
    if !s.profiles.contains_key((adapter, ssid)) {
        Attempt { state: s, error: Some(ErrorView::NoStoredCredentials(ssid_display(ssid))) }
    } else if !s.visible.contains_key(ssid) {
        Attempt { state: s, error: Some(ErrorView::SsidNotInRange) }
    } else if s.profiles[(adapter, ssid)] != s.visible[ssid].password {
        Attempt { state: s, error: Some(ErrorView::AuthenticationFailed) }
    } else {
        Attempt { state: with_connection(s, adapter, ssid), error: None }
    }
}

/// Whether `adapter` is connected to `ssid`.
pub open spec fn connected_to(s: MockStateView, adapter: Seq<char>, ssid: Seq<u8>) -> bool {
    s.connected.contains_key(adapter) && s.connected[adapter] == ssid
}

/// The state after a disconnect from `ssid`.
pub open spec fn after_disconnect(s: MockStateView, adapter: Seq<char>, ssid: Seq<u8>) -> MockStateView {
    if connected_to(s, adapter, ssid) {
        MockStateView { connected: s.connected.remove(adapter), ..s }
    } else {
        s
    }
}

/// The state after the profile for `ssid` was removed.
pub open spec fn after_remove(s: MockStateView, adapter: Seq<char>, ssid: Seq<u8>) -> MockStateView {
    MockStateView { profiles: s.profiles.remove((adapter, ssid)), ..s }
}

/// What a scan on `adapter` says about `ssid`.
pub open spec fn scan_entry(s: MockStateView, adapter: Seq<char>, ssid: Seq<u8>) -> NetworkView {
    let props = s.visible[ssid].props;
    NetworkView {
        ssid,
        signal_quality: props.signal_quality,
        security: props.security,
        bss_count: props.bss_count as nat,
        is_connected: connected_to(s, adapter, ssid),
        has_saved_profile: s.profiles.contains_key((adapter, ssid)),
        rssi_dbm: props.rssi_dbm,
        bssid: props.bssid,
        frequency_mhz: props.frequency_mhz,
    }
}

/// `networks` is what a scan on `adapter` shows: each visible network that has a
/// name, in report order.
pub open spec fn is_scan(s: MockStateView, adapter: Seq<char>, networks: Seq<NetworkView>) -> bool {
    &&& in_report_order(networks)
    &&& forall|n: int|
        0 <= n < networks.len() ==> (#[trigger] networks[n]).ssid.len() > 0
            && s.visible.contains_key(networks[n].ssid) && networks[n] == scan_entry(
            s,
            adapter,
            networks[n].ssid,
        )
    &&& forall|ssid: Seq<u8>| #[trigger]
        s.visible.contains_key(ssid) && ssid.len() > 0 ==> reports(networks, ssid)
}

impl MockState {
    /// Add `ssid` (with its "true" password) to the simulated radio
    /// environment so subsequent `connect` calls can observe it. Uses
    /// default scan properties (`VisibleNetworkProps::default()`); use
    /// [`MockState::add_visible_network`] to script per-network values.
    pub fn add_visible_ssid(&mut self, ssid: Ssid, password: &str)
        ensures
            final(self)@ == (MockStateView {
                visible: old(self)@.visible.insert(
                    ssid@,
                    MockNetworkView { password: password@, props: default_props() },
                ),
                ..old(self)@
            }),
            ({
                let network = final(self)@.visible[ssid@];
                &&& network.password == password@
                &&& network.props.signal_quality == 75
                &&& network.props.security == SecurityFlags::wpa2_psk()
                &&& network.props.bss_count == 1
                &&& network.props.rssi_dbm is None
                &&& network.props.bssid is None
                &&& network.props.frequency_mhz is None
            }),
    {
        self.add_visible_network(ssid, password, VisibleNetworkProps::default());
    }

    /// Add `ssid` with its "true" password and explicit scan properties.
    pub fn add_visible_network(&mut self, ssid: Ssid, password: &str, props: VisibleNetworkProps)
        ensures
            final(self)@ == (MockStateView {
                visible: old(self)@.visible.insert(
                    ssid@,
                    MockNetworkView { password: password@, props },
                ),
                ..old(self)@
            }),
    {
        self.visible.insert(ssid, MockNetwork { password: password.to_owned(), props });
        assert(self@.visible =~= old(self)@.visible.insert(
            ssid@,
            MockNetworkView { password: password@, props },
        ));
    }

    /// Remove every SSID from the simulated radio environment so the next
    /// `connect` call sees an empty scan.
    pub fn clear_visible(&mut self)
        ensures
            final(self)@ == (MockStateView { visible: Map::empty(), ..old(self)@ }),
    {
        self.visible = AssocMap::new();
        assert(self@.visible =~= Map::<Seq<u8>, MockNetworkView>::empty());
    }

    /// Returns `true` if `adapter` is currently associated to `ssid`
    /// in the mock state.
    pub fn is_connected(&self, adapter: &AdapterId, ssid: &Ssid) -> (r: bool)
        ensures
            r == connected_to(self@, adapter@, ssid@),
    {
        match self.connected.get(adapter) {
            Some(s) => s.same_as(ssid),
            None => false,
        }
    }

    /// Returns `true` if a stored profile exists for `(adapter, ssid)`.
    pub fn has_profile(&self, adapter: &AdapterId, ssid: &Ssid) -> (r: bool)
        ensures
            r == self@.profiles.contains_key((adapter@, ssid@)),
    {
        self.profiles.contains_key(&ProfileKey { adapter: adapter.clone(), ssid: ssid.clone() })
    }

    fn connect_to(&mut self, adapter: &AdapterId, ssid: &Ssid)
        ensures
            final(self)@ == with_connection(old(self)@, adapter@, ssid@),
    {
        self.connected.insert(adapter.clone(), ssid.clone());
        assert(self@.connected =~= old(self)@.connected.insert(adapter@, ssid@));
    }
}

/// In-memory backend.
pub struct MockBackend {
    state: MockState,
}

impl View for MockBackend {
    type V = MockStateView;

    closed spec fn view(&self) -> MockStateView {
        self.state@
    }
}

impl MockBackend {
    /// Construct a `MockBackend` pre-populated with one default adapter
    /// (`mock0` / "Mock Wi-Fi"). Use [`MockBackend::state`] to script
    /// additional state.
    pub fn new() -> (r: MockBackend)
        ensures
            r@ == (MockStateView {
                adapters: seq![AdapterView { id: "mock0"@, name: "Mock Wi-Fi"@ }],
                visible: Map::empty(),
                profiles: Map::empty(),
                connected: Map::empty(),
            }),
    {
        let mut adapters: Vec<AdapterInfo> = Vec::new();
        adapters.push(AdapterInfo { id: AdapterId::new("mock0"), name: "Mock Wi-Fi".to_owned() });
        let r = MockBackend {
            state: MockState {
                adapters,
                visible: AssocMap::new(),
                profiles: AssocMap::new(),
                connected: AssocMap::new(),
            },
        };
        assert(r@.adapters =~= seq![AdapterView { id: "mock0"@, name: "Mock Wi-Fi"@ }]);
        assert(r@.visible =~= Map::<Seq<u8>, MockNetworkView>::empty());
        assert(r@.profiles =~= Map::<(Seq<char>, Seq<u8>), Seq<char>>::empty());
        assert(r@.connected =~= Map::<Seq<char>, Seq<u8>>::empty());
        r
    }

    /// Hands out the mock state, to inspect it and to script it further.
    pub fn state(&mut self) -> (r: &mut MockState)
        ensures
            r@ == old(self)@,
            final(self)@ == final(r)@,
    {
        &mut self.state
    }

    pub fn list_adapters(&self) -> (r: Result<Vec<AdapterInfo>, Error>)
        ensures
            r is Ok,
            adapter_views(r->Ok_0@) == self@.adapters,
    {
        Ok(copy_adapters(&self.state.adapters))
    }

    /// Connects with the given credentials and remembers them as the profile.
    pub fn connect(
        &mut self,
        adapter: &AdapterId,
        ssid: &Ssid,
        credentials: &Credentials,
        _options: &ConnectOptions,
    ) -> (r: Result<WifiConnection, Error>)
        ensures
            (Attempt { state: final(self)@, error: failure(r) }) == connect_attempt(
                old(self)@,
                adapter@,
                ssid@,
                credentials@,
            ),
            r matches Ok(connection) ==> connection.is_inert(),
    {
        let true_pw = match self.state.visible.get(ssid) {
            Some(network) => network.password.clone(),
            None => {
                return Err(Error::SsidNotInRange);
            },
        };
        let supplied = match credentials.passphrase() {
            // Every visible network counts as protected, so an
            // open-credential connect attempt is rejected.
            None => {
                return Err(Error::AuthenticationFailed);
            },
            Some(p) => p.to_owned(),
        };
        if supplied != true_pw {
            return Err(Error::AuthenticationFailed);
        }
        self.state.profiles.insert(
            ProfileKey { adapter: adapter.clone(), ssid: ssid.clone() },
            supplied,
        );
        assert(self@.profiles =~= old(self)@.profiles.insert((adapter@, ssid@), supplied@));
        self.state.connect_to(adapter, ssid);
        Ok(WifiConnection::inert())
    }

    /// Connects with the credentials of the stored profile.
    pub fn connect_with_stored_credentials(
        &mut self,
        adapter: &AdapterId,
        ssid: &Ssid,
        _options: &ConnectOptions,
    ) -> (r: Result<WifiConnection, Error>)
        ensures
            (Attempt { state: final(self)@, error: failure(r) }) == stored_attempt(
                old(self)@,
                adapter@,
                ssid@,
            ),
            r matches Ok(connection) ==> connection.is_inert(),
    {
        let key = ProfileKey { adapter: adapter.clone(), ssid: ssid.clone() };
        let stored = match self.state.profiles.get(&key) {
            Some(pw) => pw.clone(),
            None => {
                return Err(Error::NoStoredCredentials(ssid.to_string()));
            },
        };
        let matches = match self.state.visible.get(ssid) {
            Some(network) => network.password == stored,
            None => {
                return Err(Error::SsidNotInRange);
            },
        };
        if !matches {
            return Err(Error::AuthenticationFailed);
        }
        self.state.connect_to(adapter, ssid);
        Ok(WifiConnection::inert())
    }

    /// Disconnects from `ssid`; a no-op when not connected to it.
    pub fn disconnect(&mut self, adapter: &AdapterId, ssid: &Ssid) -> (r: Result<(), Error>)
        ensures
            r is Ok,
            final(self)@ == after_disconnect(old(self)@, adapter@, ssid@),
    {
        if self.state.is_connected(adapter, ssid) {
            let _removed = self.state.connected.remove(adapter);
            assert(self@.connected =~= old(self)@.connected.remove(adapter@));
        }
        Ok(())
    }

    /// Removes the profile for `ssid`. Returns whether there was one.
    pub fn remove_profile(&mut self, adapter: &AdapterId, ssid: &Ssid) -> (r: Result<bool, Error>)
        ensures
            r == Ok::<bool, Error>(old(self)@.profiles.contains_key((adapter@, ssid@))),
            final(self)@ == after_remove(old(self)@, adapter@, ssid@),
    {
        let key = ProfileKey { adapter: adapter.clone(), ssid: ssid.clone() };
        let removed = self.state.profiles.remove(&key).is_some();
        assert(self@.profiles =~= old(self)@.profiles.remove((adapter@, ssid@)));
        Ok(removed)
    }

    /// Lists the visible networks in report order. Networks without a name are
    /// left out.
    pub fn list_visible_networks(&self, adapter: &AdapterId, _options: &ScanOptions) -> (r: Result<
        Vec<VisibleNetwork>,
        Error,
    >)
        ensures
            r is Ok <==> lists_adapter(self@.adapters, adapter@),
            r matches Ok(networks) ==> is_scan(self@, adapter@, network_views(networks@)),
            r matches Err(e) ==> e@ == ErrorView::AdapterNotFound(adapter@),
    {
        if !has_adapter(&self.state.adapters, adapter) {
            return Err(Error::AdapterNotFound(adapter.to_string()));
        }
        let visible = &self.state.visible;
        let count: usize = visible.len();
        let ghost keys = visible.keys();
        let mut networks: Vec<VisibleNetwork> = Vec::new();
        let mut i: usize = 0;
        while i < count
            invariant
                *visible == self.state.visible,
                keys == visible.keys(),
                count == keys.len(),
                keys.no_duplicates(),
                forall|k: Seq<u8>| visible@.contains_key(k) <==> #[trigger] keys.contains(k),
                i <= count,
                in_report_order(network_views(networks@)),
                forall|n: int|
                    0 <= n < networks@.len() ==> (#[trigger] networks@[n]).ssid@.len() > 0
                        && self@.visible.contains_key(networks@[n].ssid@) && networks@[n]@
                        == scan_entry(self@, adapter@, networks@[n].ssid@) && keys.take(
                        i as int,
                    ).contains(networks@[n].ssid@),
                forall|k: int|
                    0 <= k < i && (#[trigger] keys[k]).len() > 0 ==> reports(
                        network_views(networks@),
                        keys[k],
                    ),
            decreases count - i,
        {
            let (ssid, network) = visible.entry(i);
            if ssid.as_bytes().len() > 0 {
                let props = network.props;
                let entry = VisibleNetwork {
                    ssid: ssid.clone(),
                    signal_quality: props.signal_quality,
                    security: props.security,
                    bss_count: props.bss_count,
                    is_connected: self.state.is_connected(adapter, ssid),
                    has_saved_profile: self.state.has_profile(adapter, ssid),
                    rssi_dbm: props.rssi_dbm,
                    bssid: props.bssid,
                    frequency_mhz: props.frequency_mhz,
                };
                let ghost was = networks@;
                let ghost added = entry;
                assert(entry@ == scan_entry(self@, adapter@, ssid@));
                proof {
                    assert forall|n: int| 0 <= n < was.len() implies #[trigger] was[n].ssid@
                        != entry.ssid@ by {
                        let k = choose|k: int|
                            0 <= k < i && keys.take(i as int)[k] == was[n].ssid@;
                        assert(keys[k] != keys[i as int]);
                    }
                }
                insert_in_order(&mut networks, entry);
                proof {
                    let at = choose|at: int|
                        0 <= at <= was.len() && #[trigger] was.insert(at, added) == networks@;
                    crate::scan_rollup::lemma_report_insert(was, at, added);
                    assert forall|n: int| 0 <= n < networks@.len() implies (
                    #[trigger] networks@[n]).ssid@.len() > 0 && self@.visible.contains_key(
                        networks@[n].ssid@,
                    ) && networks@[n]@ == scan_entry(self@, adapter@, networks@[n].ssid@)
                        && keys.take(i + 1).contains(networks@[n].ssid@) by {
                        if n == at {
                            assert(keys.take(i + 1)[i as int] == added.ssid@);
                        } else {
                            let m = if n < at {
                                n
                            } else {
                                n - 1
                            };
                            assert(networks@[n] == was[m]);
                            let k = choose|k: int|
                                0 <= k < i && keys.take(i as int)[k] == was[m].ssid@;
                            assert(keys.take(i + 1)[k] == was[m].ssid@);
                        }
                    }
                }
            } else {
                proof {
                    assert forall|n: int| 0 <= n < networks@.len() implies keys.take(
                        i + 1,
                    ).contains((#[trigger] networks@[n]).ssid@) by {
                        let k = choose|k: int|
                            0 <= k < i && keys.take(i as int)[k] == networks@[n].ssid@;
                        assert(keys.take(i + 1)[k] == networks@[n].ssid@);
                    }
                }
            }
            i = i + 1;
        }
        proof {
            let views = network_views(networks@);
            assert forall|n: int| 0 <= n < views.len() implies (#[trigger] views[n]).ssid.len() > 0
                && self@.visible.contains_key(views[n].ssid) && views[n] == scan_entry(
                self@,
                adapter@,
                views[n].ssid,
            ) by {
                assert(views[n] == networks@[n]@);
            }
            assert forall|ssid: Seq<u8>| #[trigger]
                self@.visible.contains_key(ssid) && ssid.len() > 0 implies reports(views, ssid) by {
                assert(visible@.contains_key(ssid));
                assert(keys.contains(ssid));
                let k = choose|k: int| 0 <= k < keys.len() && keys[k] == ssid;
                assert(reports(views, keys[k]));
            }
        }
        Ok(networks)
    }
}

impl Default for MockBackend {
    fn default() -> (r: MockBackend)
        ensures
            r@.adapters == seq![AdapterView { id: "mock0"@, name: "Mock Wi-Fi"@ }],
            r@.visible == Map::<Seq<u8>, MockNetworkView>::empty(),
            r@.profiles == Map::<(Seq<char>, Seq<u8>), Seq<char>>::empty(),
            r@.connected == Map::<Seq<char>, Seq<u8>>::empty(),
    {
        MockBackend::new()
    }
}

/// A successful connect leaves its adapter connected and a profile behind, with
/// which a connect without credentials succeeds too.
pub proof fn connect_installs_a_profile(
    s: MockStateView,
    adapter: Seq<char>,
    ssid: Seq<u8>,
    credentials: Option<Seq<char>>,
)
    requires
        connect_attempt(s, adapter, ssid, credentials).error is None,
    ensures
        ({
            let after = connect_attempt(s, adapter, ssid, credentials).state;
            &&& connected_to(after, adapter, ssid)
            &&& after.profiles.contains_key((adapter, ssid))
            &&& stored_attempt(after, adapter, ssid).error is None
            &&& stored_attempt(after, adapter, ssid).state == after
        }),
{
    let after = connect_attempt(s, adapter, ssid, credentials).state;
    assert(after.connected.insert(adapter, ssid) =~= after.connected);
}

/// An attempt that fails changes nothing.
pub proof fn failed_attempts_change_nothing(
    s: MockStateView,
    adapter: Seq<char>,
    ssid: Seq<u8>,
    credentials: Option<Seq<char>>,
)
    ensures
        connect_attempt(s, adapter, ssid, credentials).error is Some ==> connect_attempt(
            s,
            adapter,
            ssid,
            credentials,
        ).state == s,
        stored_attempt(s, adapter, ssid).error is Some ==> stored_attempt(s, adapter, ssid).state
            == s,
{
}

/// Disconnecting twice is the same as disconnecting once; it never touches
/// profiles, and a stored profile keeps working.
pub proof fn disconnect_is_idempotent(s: MockStateView, adapter: Seq<char>, ssid: Seq<u8>)
    ensures
        ({
            let after = after_disconnect(s, adapter, ssid);
            &&& !connected_to(after, adapter, ssid)
            &&& after_disconnect(after, adapter, ssid) == after
            &&& after.profiles == s.profiles
            &&& stored_attempt(after, adapter, ssid).error == stored_attempt(s, adapter, ssid).error
        }),
{
}

/// A removed profile is gone: removing it again finds nothing, and a connect with
/// stored credentials reports that there are none. The connection stays.
pub proof fn removed_profiles_are_gone(s: MockStateView, adapter: Seq<char>, ssid: Seq<u8>)
    ensures
        ({
            let after = after_remove(s, adapter, ssid);
            &&& !after.profiles.contains_key((adapter, ssid))
            &&& after_remove(after, adapter, ssid) == after
            &&& stored_attempt(after, adapter, ssid).error == Some(
                ErrorView::NoStoredCredentials(ssid_display(ssid)),
            )
            &&& after.connected == s.connected
        }),
{
    let after = after_remove(s, adapter, ssid);
    assert(after.profiles.remove((adapter, ssid)) =~= after.profiles);
}

/// What happens on one adapter leaves the connections and profiles of every other
/// adapter alone.
pub proof fn adapters_are_independent(
    s: MockStateView,
    adapter: Seq<char>,
    ssid: Seq<u8>,
    credentials: Option<Seq<char>>,
    other: Seq<char>,
    other_ssid: Seq<u8>,
)
    requires
        other != adapter,
    ensures
        forall|after: MockStateView|
            after == connect_attempt(s, adapter, ssid, credentials).state || after
                == stored_attempt(s, adapter, ssid).state || after == after_disconnect(
                s,
                adapter,
                ssid,
            ) || after == after_remove(s, adapter, ssid) ==> #[trigger] connected_to(
                after,
                other,
                other_ssid,
            ) == connected_to(s, other, other_ssid) && after.profiles.contains_key(
                (other, other_ssid),
            ) == s.profiles.contains_key((other, other_ssid)),
{
}

/// Without any visible network every connect finds its SSID out of range.
pub proof fn nothing_in_range_after_clear(
    s: MockStateView,
    adapter: Seq<char>,
    ssid: Seq<u8>,
    credentials: Option<Seq<char>>,
)
    requires
        s.visible == Map::<Seq<u8>, MockNetworkView>::empty(),
    ensures
        connect_attempt(s, adapter, ssid, credentials).error == Some(ErrorView::SsidNotInRange),
{
}

/// After a successful connect, scans show the network as connected and saved.
pub proof fn scans_show_the_connection(
    s: MockStateView,
    adapter: Seq<char>,
    ssid: Seq<u8>,
    credentials: Option<Seq<char>>,
    networks: Seq<NetworkView>,
    n: int,
)
    requires
        connect_attempt(s, adapter, ssid, credentials).error is None,
        is_scan(connect_attempt(s, adapter, ssid, credentials).state, adapter, networks),
        0 <= n < networks.len(),
        networks[n].ssid == ssid,
    ensures
        networks[n].is_connected,
        networks[n].has_saved_profile,
{
}

/// A scan shows a network as connected on at most one line.
pub proof fn at_most_one_network_is_connected(
    s: MockStateView,
    adapter: Seq<char>,
    networks: Seq<NetworkView>,
    m: int,
    n: int,
)
    requires
        is_scan(s, adapter, networks),
        0 <= m < n < networks.len(),
    ensures
        !(networks[m].is_connected && networks[n].is_connected),
{
    if networks[m].is_connected && networks[n].is_connected {
        assert(networks[m] == scan_entry(s, adapter, networks[m].ssid));
        assert(networks[n] == scan_entry(s, adapter, networks[n].ssid));
        assert(networks[m].ssid == networks[n].ssid);
        reported_before_is_asymmetric(networks[m], networks[n]);
    }
}

/// A connect succeeds exactly when the SSID is in range and the credentials are
/// its true password. Out of range is told first; anything but the true password,
/// no password included, is a failed authentication.
pub proof fn connect_needs_the_true_password(
    s: MockStateView,
    adapter: Seq<char>,
    ssid: Seq<u8>,
    credentials: Option<Seq<char>>,
)
    ensures
        connect_attempt(s, adapter, ssid, credentials).error is None <==> s.visible.contains_key(
            ssid,
        ) && credentials is Some && credentials->0 == s.visible[ssid].password,
        !s.visible.contains_key(ssid) ==> connect_attempt(s, adapter, ssid, credentials).error
            == Some(ErrorView::SsidNotInRange),
        s.visible.contains_key(ssid) && !(credentials is Some && credentials->0
            == s.visible[ssid].password) ==> connect_attempt(s, adapter, ssid, credentials).error
            == Some(ErrorView::AuthenticationFailed),
{
}

/// A connect that succeeds connects its adapter to the SSID and stores the
/// password that was given, and changes nothing else.
pub proof fn connect_changes_its_own_entries_only(
    s: MockStateView,
    adapter: Seq<char>,
    ssid: Seq<u8>,
    password: Seq<char>,
)
    requires
        connect_attempt(s, adapter, ssid, Some(password)).error is None,
    ensures
        ({
            let after = connect_attempt(s, adapter, ssid, Some(password)).state;
            &&& after.connected == s.connected.insert(adapter, ssid)
            &&& after.profiles == s.profiles.insert((adapter, ssid), password)
            &&& after.adapters == s.adapters
            &&& after.visible == s.visible
        }),
{
}

/// A connect with stored credentials succeeds exactly when there is a profile for
/// the adapter and the SSID, the SSID is in range and the stored password is its
/// true one. A missing profile is told first, then that it is out of range.
pub proof fn stored_connect_needs_a_profile_that_fits(
    s: MockStateView,
    adapter: Seq<char>,
    ssid: Seq<u8>,
)
    ensures
        ({
            let attempt = stored_attempt(s, adapter, ssid);
            let stored = s.profiles.contains_key((adapter, ssid));
            let in_range = s.visible.contains_key(ssid);
            let fits = s.profiles[(adapter, ssid)] == s.visible[ssid].password;
            &&& attempt.error is None <==> stored && in_range && fits
            &&& !stored ==> attempt.error == Some(
                ErrorView::NoStoredCredentials(ssid_display(ssid)),
            )
            &&& stored && !in_range ==> attempt.error == Some(ErrorView::SsidNotInRange)
            &&& stored && in_range && !fits ==> attempt.error == Some(
                ErrorView::AuthenticationFailed,
            )
            &&& attempt.error is None ==> attempt.state.connected == s.connected.insert(
                adapter,
                ssid,
            )
            &&& attempt.error is Some ==> attempt.state.connected == s.connected
            &&& attempt.state.profiles == s.profiles
            &&& attempt.state.visible == s.visible
            &&& attempt.state.adapters == s.adapters
        }),
{
}

/// A disconnect ends the connection of the adapter if it is one to that SSID, and
/// does nothing at all otherwise.
pub proof fn disconnect_ends_that_connection_only(
    s: MockStateView,
    adapter: Seq<char>,
    ssid: Seq<u8>,
)
    ensures
        ({
            let after = after_disconnect(s, adapter, ssid);
            let on_it = s.connected.contains_key(adapter) && s.connected[adapter] == ssid;
            &&& on_it ==> after.connected == s.connected.remove(adapter)
            &&& !on_it ==> after.connected == s.connected
            &&& after.profiles == s.profiles
            &&& after.visible == s.visible
            &&& after.adapters == s.adapters
            &&& connected_to(s, adapter, ssid) <==> on_it
        }),
{
}

/// Removing a profile takes away that one and nothing else.
pub proof fn remove_takes_that_profile_only(
    s: MockStateView,
    adapter: Seq<char>,
    ssid: Seq<u8>,
)
    ensures
        ({
            let after = after_remove(s, adapter, ssid);
            &&& after.profiles == s.profiles.remove((adapter, ssid))
            &&& after.connected == s.connected
            &&& after.visible == s.visible
            &&& after.adapters == s.adapters
        }),
{
}

/// A scan shows exactly the visible networks that have a name, each with the
/// properties it was scripted with, as connected exactly when the adapter is on
/// it and as saved exactly when the adapter has a profile for it.
pub proof fn scans_show_what_is_visible(
    s: MockStateView,
    adapter: Seq<char>,
    networks: Seq<NetworkView>,
    ssid: Seq<u8>,
)
    requires
        is_scan(s, adapter, networks),
    ensures
        (exists|n: int| 0 <= n < networks.len() && (#[trigger] networks[n]).ssid == ssid)
            <==> ssid.len() > 0 && s.visible.contains_key(ssid),
        forall|n: int|
            0 <= n < networks.len() ==> ({
                let network = #[trigger] networks[n];
                let props = s.visible[network.ssid].props;
                &&& network.signal_quality == props.signal_quality
                &&& network.security == props.security
                &&& network.bss_count == props.bss_count
                &&& network.rssi_dbm == props.rssi_dbm
                &&& network.bssid == props.bssid
                &&& network.frequency_mhz == props.frequency_mhz
                &&& network.is_connected <==> s.connected.contains_key(adapter)
                    && s.connected[adapter] == network.ssid
                &&& network.has_saved_profile <==> s.profiles.contains_key((adapter, network.ssid))
            }),
        forall|m: int, n: int|
            0 <= m < n < networks.len() ==> (#[trigger] networks[m]).signal_quality >= (
            #[trigger] networks[n]).signal_quality && networks[m].ssid != networks[n].ssid,
{
    if ssid.len() > 0 && s.visible.contains_key(ssid) {
        assert(reports(networks, ssid));
    }
    assert forall|m: int, n: int| 0 <= m < n < networks.len() implies (
    #[trigger] networks[m]).signal_quality >= (#[trigger] networks[n]).signal_quality
        && networks[m].ssid != networks[n].ssid by {
        assert(reported_before(networks[m], networks[n]));
        if networks[m].ssid == networks[n].ssid {
            assert(networks[m] == scan_entry(s, adapter, networks[m].ssid));
            assert(networks[n] == scan_entry(s, adapter, networks[n].ssid));
            reported_before_is_asymmetric(networks[m], networks[n]);
        }
    }
}

} // verus!
