//! The scripted backend.

use uniwifi::platform::stub::StubBackend;
use uniwifi::{
    AdapterId, Band, ConnectOptions, Credentials, Error, MockBackend, ScanOptions, SecurityFlags,
    Ssid, VisibleNetworkProps,
};

fn id() -> AdapterId {
    AdapterId::new("mock0")
}

fn ssid(s: &str) -> Ssid {
    Ssid::from_utf8(s)
}

fn opts() -> ConnectOptions {
    ConnectOptions::default()
}

#[test]
fn list_adapters_returns_default_single_adapter() {
    let mock = MockBackend::new();
    let adapters = mock.list_adapters().unwrap();
    assert_eq!(adapters.len(), 1);
    assert!(adapters[0].id.same_as(&id()));
}

#[test]
fn list_adapters_yields_one_mock_adapter() {
    let mock = MockBackend::new();
    let adapters = mock.list_adapters().unwrap();
    assert_eq!(adapters.len(), 1);
    assert_eq!(adapters[0].name, "Mock Wi-Fi");
}

#[test]
fn connect_with_correct_password_succeeds() {
    let mut mock = MockBackend::new();
    mock.state().add_visible_ssid(ssid("net"), "pw");
    let res = mock.connect(&id(), &ssid("net"), &Credentials::password("pw"), &opts());
    assert!(res.is_ok());
}

#[test]
fn connect_with_wrong_password_returns_auth_failed() {
    let mut mock = MockBackend::new();
    mock.state().add_visible_ssid(ssid("net"), "pw");
    let res = mock.connect(&id(), &ssid("net"), &Credentials::password("WRONG"), &opts());
    assert!(matches!(res, Err(Error::AuthenticationFailed)));
}

#[test]
fn connect_to_invisible_ssid_returns_not_in_range() {
    let mut mock = MockBackend::new();
    let res = mock.connect(&id(), &ssid("ghost"), &Credentials::password("pw"), &opts());
    assert!(matches!(res, Err(Error::SsidNotInRange)));
}

#[test]
fn connect_with_stored_uses_previous_profile() {
    let mut mock = MockBackend::new();
    mock.state().add_visible_ssid(ssid("net"), "pw");

    // First: connect with password to install the profile.
    mock.connect(&id(), &ssid("net"), &Credentials::password("pw"), &opts())
        .unwrap();

    // Then: stored-credential connect succeeds.
    let res = mock.connect_with_stored_credentials(&id(), &ssid("net"), &opts());
    assert!(res.is_ok());
}

#[test]
fn connect_with_stored_without_profile_returns_no_stored_credentials() {
    let mut mock = MockBackend::new();
    mock.state().add_visible_ssid(ssid("net"), "pw");
    let res = mock.connect_with_stored_credentials(&id(), &ssid("net"), &opts());
    assert!(matches!(res, Err(Error::NoStoredCredentials(_))));
}

#[test]
fn remove_profile_returns_true_when_present_false_when_absent() {
    let mut mock = MockBackend::new();
    mock.state().add_visible_ssid(ssid("net"), "pw");
    mock.connect(&id(), &ssid("net"), &Credentials::password("pw"), &opts())
        .unwrap();
    assert!(mock.remove_profile(&id(), &ssid("net")).unwrap());
    assert!(!mock.remove_profile(&id(), &ssid("net")).unwrap());
}

#[test]
fn disconnect_succeeds_when_connected_fails_otherwise() {
    let mut mock = MockBackend::new();
    mock.state().add_visible_ssid(ssid("net"), "pw");
    mock.connect(&id(), &ssid("net"), &Credentials::password("pw"), &opts())
        .unwrap();
    assert!(mock.disconnect(&id(), &ssid("net")).is_ok());
    // Second disconnect: idempotent.
    assert!(mock.disconnect(&id(), &ssid("net")).is_ok());
}

#[test]
fn full_connect_disconnect_cycle() {
    let mut mock = MockBackend::new();
    mock.state().add_visible_ssid(ssid("home"), "letmein");
    let adapters = mock.list_adapters().unwrap();
    let adapter = &adapters[0].id;

    mock.connect(adapter, &ssid("home"), &Credentials::password("letmein"), &opts())
        .unwrap();
    mock.disconnect(adapter, &ssid("home")).unwrap();

    // Profile remains until removed explicitly (desktop semantics).
    assert!(mock.remove_profile(adapter, &ssid("home")).unwrap());
    assert!(!mock.remove_profile(adapter, &ssid("home")).unwrap());
}

#[test]
fn happy_path_connect_disconnect_remove() {
    let mut mock = MockBackend::new();
    mock.state().add_visible_ssid(ssid("Office"), "tea4two");
    let adapters = mock.list_adapters().expect("list_adapters failed");
    let adapter = adapters.into_iter().next().expect("expected one adapter").id;

    mock.connect(&adapter, &ssid("Office"), &Credentials::password("tea4two"), &opts())
        .expect("connect failed");
    mock.connect_with_stored_credentials(&adapter, &ssid("Office"), &opts())
        .expect("stored-credentials connect failed");
    mock.disconnect(&adapter, &ssid("Office"))
        .expect("disconnect failed");
    let removed = mock
        .remove_profile(&adapter, &ssid("Office"))
        .expect("remove_profile failed");
    assert!(removed);
}

#[test]
fn wrong_password_returns_authentication_failed() {
    let mut mock = MockBackend::new();
    mock.state().add_visible_ssid(ssid("Cafe"), "secret");
    let err = mock
        .connect(&id(), &ssid("Cafe"), &Credentials::password("WRONG"), &opts())
        .err()
        .unwrap();
    assert!(matches!(err, Error::AuthenticationFailed));
}

#[test]
fn invisible_ssid_returns_not_in_range() {
    let mut mock = MockBackend::new();
    let err = mock
        .connect(&id(), &ssid("ghost"), &Credentials::password("x"), &opts())
        .err()
        .unwrap();
    assert!(matches!(err, Error::SsidNotInRange));
}

#[test]
fn list_visible_networks_returns_scripted_networks() {
    let mut mock = MockBackend::new();
    mock.state().add_visible_ssid(ssid("home"), "pw");
    mock.state().add_visible_network(
        ssid("guest"),
        "pw2",
        VisibleNetworkProps {
            signal_quality: 95,
            security: SecurityFlags::open(),
            rssi_dbm: Some(-45),
            bssid: Some([0x11, 0x22, 0x33, 0x44, 0x55, 0x66]),
            frequency_mhz: Some(5180),
            bss_count: 1,
        },
    );
    let nets = mock
        .list_visible_networks(&id(), &ScanOptions::default())
        .unwrap();
    assert_eq!(nets.len(), 2);
    // Sort order: highest quality first; "guest"=95, "home"=75.
    assert_eq!(nets[0].ssid.as_str(), Some("guest"));
    assert_eq!(nets[0].signal_quality, 95);
    assert_eq!(nets[0].security, SecurityFlags::open());
    assert_eq!(nets[0].rssi_dbm, Some(-45));
    assert_eq!(nets[0].band(), Some(Band::Ghz5));
    assert_eq!(nets[1].ssid.as_str(), Some("home"));
    assert_eq!(nets[1].signal_quality, 75);
    assert!(!nets[0].is_connected);
    assert!(!nets[0].has_saved_profile);
}

#[test]
fn list_visible_networks_stamps_is_connected_and_saved() {
    let mut mock = MockBackend::new();
    mock.state().add_visible_ssid(ssid("home"), "pw");

    // After connect, the next scan should mark `home` as connected and
    // having a saved profile.
    mock.connect(&id(), &ssid("home"), &Credentials::password("pw"), &opts())
        .unwrap();
    let nets = mock
        .list_visible_networks(&id(), &ScanOptions::default())
        .unwrap();
    let home = nets
        .iter()
        .find(|n| n.ssid.as_str() == Some("home"))
        .unwrap();
    assert!(home.is_connected);
    assert!(home.has_saved_profile);
}

#[test]
fn list_visible_networks_returns_empty_for_no_visible_ssids() {
    let mock = MockBackend::new();
    let nets = mock
        .list_visible_networks(&id(), &ScanOptions::default())
        .unwrap();
    assert!(nets.is_empty());
}

#[test]
fn networks_without_a_name_are_not_reported() {
    let mut mock = MockBackend::new();
    mock.state().add_visible_ssid(Ssid::from_bytes(vec![]), "pw");
    mock.state().add_visible_ssid(ssid("named"), "pw");
    let nets = mock
        .list_visible_networks(&id(), &ScanOptions::default())
        .unwrap();
    assert_eq!(nets.len(), 1);
    assert_eq!(nets[0].ssid.as_str(), Some("named"));
}

#[test]
fn unknown_adapters_are_not_found() {
    let mock = MockBackend::new();
    let other = AdapterId::new("mock1");
    match mock.list_visible_networks(&other, &ScanOptions::default()) {
        Err(Error::AdapterNotFound(name)) => assert_eq!(name, "mock1"),
        _ => panic!("no such adapter"),
    }
}

#[test]
fn a_failed_connect_changes_nothing() {
    let mut mock = MockBackend::new();
    mock.state().add_visible_ssid(ssid("a"), "pw");
    mock.state().add_visible_ssid(ssid("b"), "pw");
    mock.connect(&id(), &ssid("a"), &Credentials::password("pw"), &opts())
        .unwrap();
    assert!(mock
        .connect(&id(), &ssid("b"), &Credentials::password("no"), &opts())
        .is_err());
    assert!(mock.state().is_connected(&id(), &ssid("a")));
    assert!(!mock.state().has_profile(&id(), &ssid("b")));
}

#[test]
fn nothing_is_in_range_after_clearing() {
    let mut mock = MockBackend::new();
    mock.state().add_visible_ssid(ssid("a"), "pw");
    mock.state().clear_visible();
    let res = mock.connect(&id(), &ssid("a"), &Credentials::password("pw"), &opts());
    assert!(matches!(res, Err(Error::SsidNotInRange)));
}

#[test]
fn at_most_one_network_is_connected_in_a_scan() {
    let mut mock = MockBackend::new();
    mock.state().add_visible_ssid(ssid("a"), "pw");
    mock.state().add_visible_ssid(ssid("b"), "pw");
    mock.connect(&id(), &ssid("a"), &Credentials::password("pw"), &opts())
        .unwrap();
    mock.connect(&id(), &ssid("b"), &Credentials::password("pw"), &opts())
        .unwrap();
    let nets = mock
        .list_visible_networks(&id(), &ScanOptions::default())
        .unwrap();
    let connected: Vec<_> = nets
        .iter()
        .filter(|n| n.is_connected)
        .map(|n| n.ssid.as_str().unwrap())
        .collect();
    assert_eq!(connected, vec!["b"]);
    assert!(nets.iter().all(|n| n.has_saved_profile));
}

fn make_stub() -> StubBackend {
    StubBackend::new("test stub")
}

#[test]
fn list_adapters_returns_unsupported() {
    let s = make_stub();
    let res = s.list_adapters();
    assert!(matches!(res, Err(Error::Unsupported(msg)) if msg == "test stub"));
}

#[test]
fn connect_returns_unsupported() {
    let s = make_stub();
    let res = s.connect(
        &AdapterId::new("x"),
        &Ssid::from_utf8("y"),
        &Credentials::Open,
        &ConnectOptions::default(),
    );
    assert!(matches!(res, Err(Error::Unsupported(_))));
}

#[test]
fn other_methods_return_unsupported() {
    let s = make_stub();
    let id = AdapterId::new("x");
    let ssid = Ssid::from_utf8("y");
    assert!(matches!(
        s.connect_with_stored_credentials(&id, &ssid, &ConnectOptions::default()),
        Err(Error::Unsupported(_))
    ));
    assert!(matches!(s.disconnect(&id, &ssid), Err(Error::Unsupported(_))));
    assert!(matches!(s.remove_profile(&id, &ssid), Err(Error::Unsupported(_))));
    assert!(matches!(
        s.list_visible_networks(&id, &ScanOptions::default()),
        Err(Error::Unsupported("scan not implemented on this platform"))
    ));
}
