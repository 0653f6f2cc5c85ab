//! The `NetworkManager` backend's decisions.

use std::time::Duration;

use uniwifi::platform::linux::adapters::{list_wifi_adapters, resolve_device_path, DeviceReading};
use uniwifi::platform::linux::backend::{check_network_manager, BusProbe};
use uniwifi::platform::linux::connect::{
    activation_error, connect_with_credentials, connect_with_stored, preflight_budget,
};
use uniwifi::platform::linux::disconnect::{
    disconnect_ssid, remove_profile_for_ssid, ActiveConnection,
};
use uniwifi::platform::linux::error_map::{
    from_zbus, map_dbus_error_name, map_state_reason, REASON_CONNECT_TIMEOUT, REASON_LOGIN_FAILED,
    REASON_NO_SECRETS, REASON_USER_DISCONNECTED,
};
use uniwifi::platform::linux::scan::{
    connected_ssid_from_active, fetch_bsses, fetch_scan_context, saved_wifi_ssids,
    security_from_nm_flags, ActiveReading, ApReading, SavedProfile,
};
use uniwifi::platform::linux::settings::{
    build_connection_settings, ConnectionSettings, Section, SettingValue,
};
use uniwifi::platform::linux::state_wait::{
    terminal_state_to_error, wait_for_active_connection, WaitEvent, STATE_ACTIVATED,
    STATE_DEACTIVATED,
};
use uniwifi::platform::macos::scan::{security_from_cw_set, CW_SECURITY_WPA2_PERSONAL};
use uniwifi::preflight::ScanOutcome;
use uniwifi::{AdapterId, ConnectOptions, Credentials, Error, SecurityFlags, Ssid};

#[test]
fn permission_denied_dbus_name_maps_to_polkit() {
    let e = map_dbus_error_name("org.freedesktop.NetworkManager.Settings.PermissionDenied");
    assert!(matches!(e, Some(Error::PermissionDenied("polkit"))));
}

#[test]
fn not_authorized_dbus_name_maps_to_polkit() {
    let e = map_dbus_error_name("org.freedesktop.NetworkManager.NotAuthorized");
    assert!(matches!(e, Some(Error::PermissionDenied("polkit"))));
}

#[test]
fn unknown_dbus_name_returns_none() {
    let e = map_dbus_error_name("org.freedesktop.SomethingElse");
    assert!(e.is_none());
}

#[test]
fn dbus_access_denied_maps_to_polkit() {
    // System-bus-level denial (e.g. service-side policy reject) does
    // not have the NM-side suffix patterns; verify the explicit match.
    let e = map_dbus_error_name("org.freedesktop.DBus.Error.AccessDenied");
    assert!(matches!(e, Some(Error::PermissionDenied("polkit"))));
}

#[test]
fn no_secrets_state_reason_maps_to_auth_failed() {
    let e = map_state_reason(REASON_NO_SECRETS);
    assert!(matches!(e, Some(Error::AuthenticationFailed)));
}

#[test]
fn login_failed_state_reason_maps_to_auth_failed() {
    let e = map_state_reason(REASON_LOGIN_FAILED);
    assert!(matches!(e, Some(Error::AuthenticationFailed)));
}

#[test]
fn user_disconnected_state_reason_maps_to_user_cancelled() {
    let e = map_state_reason(REASON_USER_DISCONNECTED);
    assert!(matches!(e, Some(Error::UserCancelled)));
}

#[test]
fn connect_timeout_state_reason_maps_to_os_error_unknown_otherwise() {
    // CONNECT_TIMEOUT is intentionally not promoted — the caller's own
    // `effective_timeout()` deadline drives `Error::Timeout`. Any
    // residual NM-side timeout is surfaced as a generic Os error.
    let e = map_state_reason(REASON_CONNECT_TIMEOUT);
    assert!(e.is_none());
}

#[test]
fn unknown_state_reason_returns_none() {
    let e = map_state_reason(9999);
    assert!(e.is_none());
}

#[test]
fn dbus_failures_keep_their_text() {
    let e = from_zbus(Some("org.x.Failed"), "broken");
    assert_eq!(e.to_string(), "internal os error: broken");
    let e = from_zbus(None, "no bus");
    assert_eq!(e.to_string(), "internal os error: no bus");
    assert!(matches!(
        from_zbus(Some("a.NotAuthorized"), "denied"),
        Error::PermissionDenied("polkit")
    ));
}

const PRIVACY: u32 = 0x1;
const PSK: u32 = 0x100;
const EAP: u32 = 0x200;
const SAE: u32 = 0x400;
const OWE: u32 = 0x800;
const OWE_TM: u32 = 0x1000;
const EAP_SUITE_B_192: u32 = 0x2000;
const EAP_SHA384: u32 = 0x4000;

#[test]
fn open_no_privacy_no_ies() {
    assert_eq!(security_from_nm_flags(0, 0, 0), SecurityFlags::open());
}

#[test]
fn wep_privacy_no_rsn_or_wpa() {
    assert_eq!(security_from_nm_flags(PRIVACY, 0, 0), SecurityFlags::wep());
}

#[test]
fn wpa_psk_only() {
    assert_eq!(
        security_from_nm_flags(PRIVACY, PSK, 0),
        SecurityFlags::wpa_psk()
    );
}

#[test]
fn scan_wpa2_psk() {
    assert_eq!(
        security_from_nm_flags(PRIVACY, 0, PSK),
        SecurityFlags::wpa2_psk()
    );
    // CoreWLAN's name for it is "WPA2 Personal".
    let s = security_from_cw_set(&vec![CW_SECURITY_WPA2_PERSONAL]);
    assert_eq!(s, SecurityFlags::wpa2_psk());
}

#[test]
fn scan_wpa3_sae() {
    assert_eq!(
        security_from_nm_flags(PRIVACY, 0, SAE),
        SecurityFlags::wpa3_sae()
    );
}

#[test]
fn scan_transition_psk_plus_sae() {
    assert_eq!(
        security_from_nm_flags(PRIVACY, 0, PSK | SAE),
        SecurityFlags::wpa2_psk() | SecurityFlags::wpa3_sae()
    );
}

#[test]
fn enterprise_eap() {
    assert_eq!(
        security_from_nm_flags(PRIVACY, 0, EAP),
        SecurityFlags::wpa2_enterprise()
    );
}

#[test]
fn scan_owe_alone_not_open() {
    // OWE BSSes do not set the privacy bit.
    let s = security_from_nm_flags(0, 0, OWE);
    assert_eq!(s, SecurityFlags::owe());
    assert!(!s.contains(SecurityFlags::open()));
}

#[test]
fn owe_transition_alone_not_open() {
    let s = security_from_nm_flags(0, 0, OWE_TM);
    assert_eq!(s, SecurityFlags::owe());
    assert!(!s.contains(SecurityFlags::open()));
}

#[test]
fn wpa3_enterprise_suite_b_192() {
    let s = security_from_nm_flags(PRIVACY, 0, EAP_SUITE_B_192);
    assert_eq!(s, SecurityFlags::wpa3_enterprise());
}

#[test]
fn wpa3_enterprise_sha384() {
    let s = security_from_nm_flags(PRIVACY, 0, EAP_SHA384);
    assert_eq!(s, SecurityFlags::wpa3_enterprise());
}

#[test]
fn wpa3_enterprise_with_legacy_eap_yields_both() {
    let s = security_from_nm_flags(PRIVACY, 0, EAP | EAP_SHA384);
    assert!(s.contains(SecurityFlags::wpa2_enterprise()));
    assert!(s.contains(SecurityFlags::wpa3_enterprise()));
}

fn section<'a>(s: &'a ConnectionSettings, name: &str) -> &'a Section {
    s.get(&name.to_string()).expect("section")
}

fn text(s: &Section, key: &str) -> String {
    match s.get(&key.to_string()) {
        Some(SettingValue::Text(t)) => t.clone(),
        _ => panic!("{key} is not a string"),
    }
}

#[test]
fn open_network_omits_security_section() {
    let s = build_connection_settings(&Ssid::from_utf8("Cafe"), &Credentials::Open);
    assert!(s.contains_key(&"connection".to_string()));
    assert!(s.contains_key(&"802-11-wireless".to_string()));
    assert!(!s.contains_key(&"802-11-wireless-security".to_string()));
}

#[test]
fn wpa_psk_includes_security_section_with_psk() {
    let s = build_connection_settings(&Ssid::from_utf8("Home"), &Credentials::password("hunter2"));
    let security = section(&s, "802-11-wireless-security");
    assert_eq!(text(security, "key-mgmt"), "wpa-psk");
    assert_eq!(text(security, "psk"), "hunter2");
}

#[test]
fn ssid_is_passed_as_byte_array_not_string() {
    // SSIDs are octets per IEEE 802.11; NM uses `ay` (array of byte).
    let s = build_connection_settings(
        &Ssid::from_bytes(vec![0xff, 0xfe, b'X']),
        &Credentials::Open,
    );
    match section(&s, "802-11-wireless").get(&"ssid".to_string()) {
        Some(SettingValue::Bytes(raw)) => assert_eq!(raw, &vec![0xff, 0xfe, b'X']),
        _ => panic!("ssid is not a byte array"),
    }
}

#[test]
fn connection_section_marks_type_as_wifi() {
    let s = build_connection_settings(&Ssid::from_utf8("X"), &Credentials::Open);
    assert_eq!(text(section(&s, "connection"), "type"), "802-11-wireless");
}

#[test]
fn wireless_mode_is_infrastructure() {
    let s = build_connection_settings(&Ssid::from_utf8("X"), &Credentials::Open);
    assert_eq!(text(section(&s, "802-11-wireless"), "mode"), "infrastructure");
}

#[test]
fn debug_does_not_leak_psk_into_settings_after_drop() {
    // The PSK is materialized as a plain `String` only inside the dict.
    let s = build_connection_settings(&Ssid::from_utf8("X"), &Credentials::password("supersecret"));
    assert_eq!(text(section(&s, "802-11-wireless-security"), "psk"), "supersecret");
}

fn wifi(name: &str) -> DeviceReading {
    DeviceReading::Read {
        device_type: Some(2),
        interface: Ok(name.to_string()),
    }
}

fn ethernet() -> DeviceReading {
    DeviceReading::Read {
        device_type: Some(1),
        interface: Ok("eth0".to_string()),
    }
}

fn gone() -> DeviceReading {
    DeviceReading::Read {
        device_type: None,
        interface: Err(Error::NoAdapter),
    }
}

#[test]
fn wifi_devices_are_adapters() {
    let adapters =
        list_wifi_adapters(vec![ethernet(), wifi("wlan0"), gone(), wifi("wlan1")]).unwrap();
    assert_eq!(adapters.len(), 2);
    assert_eq!(adapters[0].id.as_str(), "wlan0");
    assert_eq!(adapters[0].name, "Wi-Fi (wlan0)");
    assert_eq!(adapters[1].id.as_str(), "wlan1");
    assert!(matches!(
        list_wifi_adapters(vec![wifi("wlan0"), DeviceReading::Unreachable(Error::UserCancelled)]),
        Err(Error::UserCancelled)
    ));
    assert!(list_wifi_adapters(vec![]).unwrap().is_empty());
}

#[test]
fn adapters_are_resolved_by_name() {
    let id = AdapterId::new("wlan1");
    assert_eq!(
        resolve_device_path(vec![wifi("wlan0"), wifi("wlan1")], &id).unwrap(),
        1
    );
    match resolve_device_path(vec![ethernet(), wifi("wlan0")], &id) {
        Err(Error::AdapterNotFound(name)) => assert_eq!(name, "wlan1"),
        other => panic!("unexpected: {other:?}"),
    }
}

fn saved(ty: &str, ssid: &str) -> SavedProfile {
    SavedProfile::Read {
        connection_type: Some(ty.to_string()),
        ssid: Some(ssid.as_bytes().to_vec()),
    }
}

#[test]
fn stored_profiles_are_found_by_ssid() {
    let net = Ssid::from_utf8("Net");
    let profiles = || {
        vec![
            saved("802-11-wireless", "Other"),
            saved("802-11-wireless", "Net"),
        ]
    };
    assert_eq!(connect_with_stored(profiles(), &net).unwrap(), 1);
    assert_eq!(remove_profile_for_ssid(profiles(), &net).unwrap(), Some(1));
    match connect_with_stored(vec![], &net) {
        Err(Error::NoStoredCredentials(name)) => assert_eq!(name, "Net"),
        other => panic!("unexpected: {other:?}"),
    }
    assert_eq!(remove_profile_for_ssid(vec![], &net).unwrap(), None);
}

#[test]
fn saved_ssids_are_those_of_wifi_profiles() {
    let set = saved_wifi_ssids(vec![
        saved("802-3-ethernet", "Wire"),
        saved("802-11-wireless", "Net"),
        saved("802-11-wireless", ""),
    ])
    .unwrap();
    assert!(set.contains(&Ssid::from_utf8("Net")));
    assert!(!set.contains(&Ssid::from_utf8("Wire")));
    assert!(!set.contains(&Ssid::from_utf8("")));
    assert!(saved_wifi_ssids(vec![SavedProfile::Unreachable(Error::NoAdapter)]).is_err());
}

#[test]
fn the_context_is_best_effort() {
    let reading = || ActiveReading {
        active: Some("/active/1".to_string()),
        specific: Some("/ap/1".to_string()),
        ssid: Some(b"Net".to_vec()),
    };
    let ctx = fetch_scan_context(reading(), Err(Error::NoAdapter));
    assert!(ctx.connected_ssid.unwrap().same_as(&Ssid::from_utf8("Net")));
    assert!(!ctx.saved_ssids.contains(&Ssid::from_utf8("Net")));
    assert!(connected_ssid_from_active(ActiveReading {
        specific: Some("/".to_string()),
        ..reading()
    })
    .is_none());
    assert!(connected_ssid_from_active(ActiveReading { ssid: None, ..reading() }).is_none());
}

#[test]
fn access_points_become_observations() {
    let ap = |ssid: Option<&str>| ApReading {
        ssid: ssid.map(|s| s.as_bytes().to_vec()),
        strength: Some(64),
        frequency: Some(2412),
        hw_address: Some("aa:bb:cc:dd:ee:ff".to_string()),
        flags: Some(PRIVACY),
        wpa_flags: Some(0),
        rsn_flags: Some(PSK),
    };
    let out = fetch_bsses(vec![ap(None), ap(Some("Net"))]);
    assert_eq!(out.len(), 1);
    assert_eq!(out[0].ssid.as_str(), Some("Net"));
    assert_eq!(out[0].quality, 64);
    assert_eq!(out[0].frequency_mhz, Some(2412));
    assert_eq!(out[0].bssid, Some([0xaa, 0xbb, 0xcc, 0xdd, 0xee, 0xff]));
    assert_eq!(out[0].security, SecurityFlags::wpa2_psk());
}

#[test]
fn only_the_matching_connection_is_deactivated() {
    let net = Ssid::from_utf8("Net");
    let active = |device: &str, specific: &str, ssid: &str| ActiveConnection::Read {
        devices: Some(vec![device.to_string()]),
        specific: Some(specific.to_string()),
        ap_ssid: Ok(Some(ssid.as_bytes().to_vec())),
    };
    assert_eq!(
        disconnect_ssid(
            vec![
                active("/dev/2", "/ap/1", "Net"),
                active("/dev/1", "/", "Net"),
                active("/dev/1", "/ap/1", "Other"),
                active("/dev/1", "/ap/2", "Net"),
            ],
            "/dev/1",
            &net
        )
        .unwrap(),
        Some(3)
    );
    assert_eq!(disconnect_ssid(vec![], "/dev/1", &net).unwrap(), None);
    assert!(matches!(
        disconnect_ssid(
            vec![ActiveConnection::Unreachable(Error::UserCancelled)],
            "/dev/1",
            &net
        ),
        Err(Error::UserCancelled)
    ));
}

#[test]
fn unheard_ssids_are_out_of_range() {
    assert!(matches!(
        activation_error(ScanOutcome::NotVisible, Error::UserCancelled),
        Error::SsidNotInRange
    ));
    assert!(matches!(
        activation_error(ScanOutcome::Visible, Error::UserCancelled),
        Error::UserCancelled
    ));
    assert!(matches!(
        connect_with_credentials(ScanOutcome::NotVisible, Err(Error::AuthenticationFailed)),
        Err(Error::SsidNotInRange)
    ));
    assert!(matches!(
        connect_with_credentials(ScanOutcome::Skipped, Err(Error::AuthenticationFailed)),
        Err(Error::AuthenticationFailed)
    ));
    assert!(connect_with_credentials(ScanOutcome::NotVisible, Ok(())).is_ok());
    assert_eq!(
        preflight_budget(&ConnectOptions { timeout: Some(Duration::from_secs(8)) }),
        Duration::from_secs(2)
    );
}

#[test]
fn a_wait_ends_in_a_terminal_state() {
    let limit = Duration::from_secs(4);
    assert!(matches!(
        terminal_state_to_error(STATE_ACTIVATED, None),
        Some(Ok(()))
    ));
    assert!(matches!(
        terminal_state_to_error(STATE_DEACTIVATED, Some(REASON_NO_SECRETS)),
        Some(Err(Error::AuthenticationFailed))
    ));
    match terminal_state_to_error(STATE_DEACTIVATED, Some(REASON_CONNECT_TIMEOUT)) {
        Some(Err(e @ Error::Os(_))) => assert!(e.to_string().contains("timeout")),
        other => panic!("unexpected {other:?}"),
    }
    assert!(matches!(
        terminal_state_to_error(STATE_DEACTIVATED, Some(9999)),
        Some(Err(Error::AuthenticationFailed))
    ));
    assert!(terminal_state_to_error(1, None).is_none());
    assert!(wait_for_active_connection(WaitEvent::CurrentState(None), limit).is_none());
    assert!(wait_for_active_connection(WaitEvent::StateChanged(Some((1, 0))), limit).is_none());
    assert!(matches!(
        wait_for_active_connection(WaitEvent::StateChanged(Some((2, 0))), limit),
        Some(Ok(()))
    ));
    assert!(matches!(
        wait_for_active_connection(WaitEvent::Deadline, limit),
        Some(Err(Error::Timeout(d))) if d == limit
    ));
    assert!(matches!(
        wait_for_active_connection(WaitEvent::StreamClosed, limit),
        Some(Err(Error::Os(_)))
    ));
}

#[test]
fn network_manager_probe_decides_support() {
    assert!(check_network_manager(BusProbe::Answered(true)).is_ok());
    for probe in [BusProbe::NoBus, BusProbe::Answered(false)] {
        assert!(matches!(
            check_network_manager(probe),
            Err(Error::Unsupported("NetworkManager not running"))
        ));
    }
    match check_network_manager(BusProbe::Failed("broken pipe".to_string())) {
        Err(e @ Error::Os(_)) => assert!(e.to_string().contains("broken pipe")),
        other => panic!("unexpected {other:?}"),
    }
}
