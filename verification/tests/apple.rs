//! The iOS and macOS backends' decisions.

use std::time::Duration;

use uniwifi::bssid::parse_bssid;
use uniwifi::error::{NsErrorWrapper, OsError};
use uniwifi::platform::ios::backend as ios;
use uniwifi::platform::ios::configuration::{
    build_configuration, map_apply_received, map_get_configured_received,
};
use uniwifi::platform::ios::error_map::{map_ne_error, MappedError, NE_HOTSPOT_DOMAIN};
use uniwifi::platform::ios::foreground::{ensure_foreground, AppState};
use uniwifi::platform::macos::adapter::{list_adapters, resolve_interface_by_id};
use uniwifi::platform::macos::connect as mac_connect;
use uniwifi::platform::macos::error::{map_associate_nserror, map_scan_nserror_to_error};
use uniwifi::platform::macos::keychain::{
    delete_wifi_password, keychain_entry_exists, ERR_SEC_AUTH_FAILED, ERR_SEC_ITEM_NOT_FOUND,
    ERR_SEC_SUCCESS,
};
use uniwifi::platform::macos::scan::{
    can_hold_frequency, channel_to_mhz, fetch_bsses_blocking, fetch_scan_context_blocking, observed_security,
    security_from_cw_set, CwChannel, CwNetwork, ProfileReading, CW_CHANNEL_BAND_2GHZ,
    CW_CHANNEL_BAND_5GHZ, CW_CHANNEL_BAND_6GHZ, CW_CHANNEL_BAND_UNKNOWN, CW_SECURITY_NONE,
    CW_SECURITY_OWE, CW_SECURITY_OWE_TRANSITION, CW_SECURITY_PERSONAL,
    CW_SECURITY_WPA2_ENTERPRISE, CW_SECURITY_WPA2_PERSONAL, CW_SECURITY_WPA3_ENTERPRISE,
    CW_SECURITY_WPA3_PERSONAL, CW_SECURITY_WPA3_TRANSITION,
};
use uniwifi::preflight::ScanOutcome;
use uniwifi::{AdapterId, Credentials, Error, SecurityFlags, Ssid};

fn ns_error(domain: &str, code: i64) -> NsErrorWrapper {
    NsErrorWrapper {
        domain: domain.to_string(),
        code,
        description: "it failed".to_string(),
    }
}

fn ne_error(code: i64) -> NsErrorWrapper {
    ns_error(NE_HOTSPOT_DOMAIN, code)
}

#[test]
fn user_denied_maps_to_user_cancelled() {
    assert!(matches!(
        map_ne_error(ne_error(7)),
        MappedError::Surface(Error::UserCancelled)
    ));
}

#[test]
fn invalid_wpa_passphrase_maps_to_authentication_failed() {
    assert!(matches!(
        map_ne_error(ne_error(2)),
        MappedError::Surface(Error::AuthenticationFailed)
    ));
}

#[test]
fn invalid_wep_passphrase_maps_to_authentication_failed() {
    assert!(matches!(
        map_ne_error(ne_error(3)),
        MappedError::Surface(Error::AuthenticationFailed)
    ));
}

#[test]
fn application_not_in_foreground_maps_to_unsupported() {
    assert!(matches!(
        map_ne_error(ne_error(14)),
        MappedError::Surface(Error::Unsupported("requires foreground app"))
    ));
}

#[test]
fn already_associated_maps_to_already_associated_sentinel() {
    assert!(matches!(
        map_ne_error(ne_error(13)),
        MappedError::AlreadyAssociated
    ));
}

#[test]
fn user_unauthorized_maps_to_permission_denied() {
    assert!(matches!(
        map_ne_error(ne_error(16)),
        MappedError::Surface(Error::PermissionDenied(_))
    ));
}

#[test]
fn system_denied_maps_to_permission_denied() {
    assert!(matches!(
        map_ne_error(ne_error(17)),
        MappedError::Surface(Error::PermissionDenied(_))
    ));
}

#[test]
fn unknown_code_routes_to_os() {
    assert!(matches!(
        map_ne_error(ne_error(11)),
        MappedError::Surface(Error::Os(_))
    ));
}

#[test]
fn other_domain_routes_to_os() {
    // Code 7 would be userDenied in the hotspot domain.
    match map_ne_error(ns_error("SomeOtherDomain", 7)) {
        MappedError::Surface(e) => {
            assert!(matches!(e, Error::Os(_)));
            assert_eq!(
                e.to_string(),
                "internal os error: it failed (domain=SomeOtherDomain, code=7)"
            );
        }
        MappedError::AlreadyAssociated => panic!("an error"),
    }
}

#[test]
fn list_adapters_returns_single_synthetic_adapter() {
    let adapters = ios::list_adapters();
    assert_eq!(adapters.len(), 1);
    assert_eq!(adapters[0].id.as_str(), ios::IOS_ADAPTER_ID);
    assert_eq!(adapters[0].name, ios::IOS_ADAPTER_NAME);
}

#[test]
fn connect_with_unknown_adapter_returns_adapter_not_found() {
    let res = ios::check_adapter(&AdapterId::new("not-en0"));
    assert!(matches!(res, Err(Error::AdapterNotFound(_))));
}

#[test]
fn connect_with_non_utf8_ssid_returns_unsupported() {
    let ssid = Ssid::from_bytes(vec![0xff, 0xfe]);
    assert!(ios::check_adapter(&AdapterId::new(ios::IOS_ADAPTER_ID)).is_ok());
    let res = build_configuration(&ssid, &Credentials::Open);
    assert!(matches!(res, Err(Error::Unsupported(_))));
}

#[test]
fn disconnect_with_unknown_adapter_returns_adapter_not_found() {
    let res = ios::check_adapter(&AdapterId::new("nope"));
    assert!(matches!(res, Err(Error::AdapterNotFound(_))));
}

#[test]
fn remove_profile_with_unknown_adapter_returns_adapter_not_found() {
    let res = ios::check_adapter(&AdapterId::new("nope"));
    assert!(matches!(res, Err(Error::AdapterNotFound(_))));
}

#[test]
fn only_the_active_app_may_connect() {
    assert!(ensure_foreground(Some(AppState::Active)).is_ok());
    for state in [Some(AppState::Inactive), Some(AppState::Background), None] {
        assert!(matches!(
            ensure_foreground(state),
            Err(Error::Unsupported("requires foreground app"))
        ));
    }
}

#[test]
fn configurations_carry_the_passphrase() {
    let c = build_configuration(&Ssid::from_utf8("Net"), &Credentials::password("pw"))
        .ok()
        .unwrap();
    assert_eq!(c.ssid, "Net");
    assert_eq!(c.passphrase, Some("pw".to_string()));
}

#[test]
fn apply_completions() {
    assert!(map_apply_received(Some(None)).is_ok());
    assert!(map_apply_received(Some(Some(ne_error(13)))).is_ok());
    assert!(matches!(
        map_apply_received(Some(Some(ne_error(7)))),
        Err(Error::UserCancelled)
    ));
    assert_eq!(
        map_apply_received(None).unwrap_err().to_string(),
        "internal os error: ios completion block channel dropped (op: apply)"
    );
    assert!(map_get_configured_received(None)
        .unwrap_err()
        .to_string()
        .contains("getConfiguredSSIDs"));
}

#[test]
fn a_connect_without_a_completion_times_out() {
    let limit = Duration::from_secs(30);
    let end = ios::finish_connect(None, limit);
    match end.result {
        Err(Error::Timeout(d)) => assert_eq!(d, limit),
        other => panic!("unexpected: {other:?}"),
    }
    assert!(end.remove);
    let end = ios::finish_connect(Some(Some(None)), limit);
    assert!(end.result.is_ok());
    assert!(!end.remove);
}

#[test]
fn stored_configurations_must_exist() {
    let limit = ios::probe_timeout();
    assert_eq!(limit, Duration::from_secs(5));
    let net = Ssid::from_utf8("Net");
    let probe = |names: &[&str]| Some(Some(names.iter().map(|n| n.to_string()).collect()));
    let c = ios::stored_configuration(probe(&["Other", "Net"]), &net, limit)
        .ok()
        .unwrap();
    assert_eq!(c.ssid, "Net");
    assert_eq!(c.passphrase, None);
    match ios::stored_configuration(probe(&["Other"]), &net, limit) {
        Err(Error::NoStoredCredentials(name)) => assert_eq!(name, "Net"),
        _ => panic!("not configured"),
    }
    match ios::stored_configuration(None, &net, limit) {
        Err(Error::Timeout(d)) => assert_eq!(d, limit),
        _ => panic!("no answer"),
    }
    assert!(ios::was_present(probe(&["Net"]), &net, limit).unwrap());
    assert!(!ios::was_present(probe(&[]), &net, limit).unwrap());
    assert!(matches!(
        ios::was_present(Some(None), &net, limit),
        Err(Error::Os(_))
    ));
    assert!(matches!(
        ios::was_present(probe(&["Net"]), &Ssid::from_bytes(vec![0xff]), limit),
        Err(Error::Unsupported(_))
    ));
}

#[test]
fn ios_does_not_scan() {
    assert!(matches!(
        ios::list_visible_networks(&AdapterId::new("en0")),
        Err(Error::Unsupported("scan not available on ios"))
    ));
    assert!(matches!(
        ios::list_visible_networks(&AdapterId::new("en1")),
        Err(Error::AdapterNotFound(_))
    ));
}

#[test]
fn open_network() {
    let s = security_from_cw_set(&vec![CW_SECURITY_NONE]);
    assert_eq!(s, SecurityFlags::open());
}

#[test]
fn wpa3_personal_maps_to_sae() {
    let s = security_from_cw_set(&vec![CW_SECURITY_WPA3_PERSONAL]);
    assert_eq!(s, SecurityFlags::wpa3_sae());
}

#[test]
fn transition_mode_yields_both_bits() {
    let s = security_from_cw_set(&vec![CW_SECURITY_WPA2_PERSONAL, CW_SECURITY_WPA3_PERSONAL]);
    assert_eq!(s, SecurityFlags::wpa2_psk() | SecurityFlags::wpa3_sae());
}

#[test]
fn wpa3_transition_alone_yields_wpa2_psk_and_wpa3_sae() {
    let s = security_from_cw_set(&vec![CW_SECURITY_WPA3_TRANSITION]);
    assert!(s.contains(SecurityFlags::wpa2_psk()));
    assert!(s.contains(SecurityFlags::wpa3_sae()));
}

#[test]
fn personal_alone_yields_all_personal_bits() {
    let s = security_from_cw_set(&vec![CW_SECURITY_PERSONAL]);
    assert!(s.contains(SecurityFlags::wpa_psk()));
    assert!(s.contains(SecurityFlags::wpa2_psk()));
    assert!(s.contains(SecurityFlags::wpa3_sae()));
}

#[test]
fn enterprise_modes() {
    let s = security_from_cw_set(&vec![CW_SECURITY_WPA2_ENTERPRISE]);
    assert_eq!(s, SecurityFlags::wpa2_enterprise());
    let s = security_from_cw_set(&vec![CW_SECURITY_WPA3_ENTERPRISE]);
    assert_eq!(s, SecurityFlags::wpa3_enterprise());
}

#[test]
fn owe_open_is_owe_only_not_open() {
    let s = security_from_cw_set(&vec![CW_SECURITY_OWE]);
    assert_eq!(s, SecurityFlags::owe());
    assert!(!s.contains(SecurityFlags::open()));
}

#[test]
fn none_plus_owe_yields_owe_only() {
    let s = security_from_cw_set(&vec![CW_SECURITY_NONE, CW_SECURITY_OWE]);
    assert_eq!(s, SecurityFlags::owe());
    assert!(!s.contains(SecurityFlags::open()));
}

#[test]
fn unknown_security_values_are_ignored() {
    assert!(security_from_cw_set(&vec![i64::MAX, 16, -1]).is_empty());
    let mut answers = [false; 16];
    answers[0] = true;
    answers[15] = true;
    assert_eq!(
        observed_security(answers),
        vec![CW_SECURITY_NONE, CW_SECURITY_OWE_TRANSITION]
    );
}

#[test]
fn parse_bssid_round_trip() {
    assert_eq!(
        parse_bssid("11:22:33:44:55:66"),
        Some([0x11, 0x22, 0x33, 0x44, 0x55, 0x66]),
    );
    assert_eq!(
        parse_bssid("AA:BB:CC:DD:EE:FF"),
        Some([0xaa, 0xbb, 0xcc, 0xdd, 0xee, 0xff]),
    );
}

#[test]
fn parse_bssid_rejects_malformed() {
    assert!(parse_bssid("").is_none());
    assert!(parse_bssid("11:22:33:44:55").is_none()); // too few octets
    assert!(parse_bssid("11:22:33:44:55:66:77").is_none()); // too many
    assert!(parse_bssid("zz:22:33:44:55:66").is_none()); // bad hex
}

#[test]
fn bssid_octets_are_numbers() {
    // Leading zeros are fine, a sign or an empty octet is not.
    assert_eq!(
        parse_bssid("1:002:3:4:5:06"),
        Some([0x01, 0x02, 0x03, 0x04, 0x05, 0x06])
    );
    assert!(parse_bssid("+1:22:33:44:55:66").is_none());
    assert!(parse_bssid("::::: ").is_none());
    assert!(parse_bssid("100:22:33:44:55:66").is_none());
    assert!(parse_bssid("-1:22:33:44:55:66").is_none());
}

#[test]
fn frequencies_that_cannot_be_held() {
    assert!(can_hold_frequency(858_992_977, CW_CHANNEL_BAND_2GHZ));
    assert!(!can_hold_frequency(858_992_978, CW_CHANNEL_BAND_2GHZ));
    assert!(can_hold_frequency(858_992_978, 0));
    assert_eq!(channel_to_mhz(858_992_978, 0), None);
    assert!(can_hold_frequency(i64::MAX, CW_CHANNEL_BAND_2GHZ));
    assert_eq!(channel_to_mhz(i64::MAX, CW_CHANNEL_BAND_2GHZ), None);
    assert!(can_hold_frequency(-1, CW_CHANNEL_BAND_2GHZ));
}

#[test]
fn channel_to_mhz_2_4_ghz() {
    assert_eq!(channel_to_mhz(1, CW_CHANNEL_BAND_2GHZ), Some(2412));
    assert_eq!(channel_to_mhz(6, CW_CHANNEL_BAND_2GHZ), Some(2437));
    assert_eq!(channel_to_mhz(11, CW_CHANNEL_BAND_2GHZ), Some(2462));
    // Channel 14 is the special case (Japan-only).
    assert_eq!(channel_to_mhz(14, CW_CHANNEL_BAND_2GHZ), Some(2484));
}

#[test]
fn channel_to_mhz_5_ghz() {
    assert_eq!(channel_to_mhz(36, CW_CHANNEL_BAND_5GHZ), Some(5180));
    assert_eq!(channel_to_mhz(165, CW_CHANNEL_BAND_5GHZ), Some(5825));
}

#[test]
fn channel_to_mhz_6_ghz() {
    assert_eq!(channel_to_mhz(1, CW_CHANNEL_BAND_6GHZ), Some(5955));
    assert_eq!(channel_to_mhz(233, CW_CHANNEL_BAND_6GHZ), Some(7115));
}

#[test]
fn channel_to_mhz_unknown_band_yields_none() {
    // The frequency is None rather than a misleading Some(0).
    assert_eq!(channel_to_mhz(1, CW_CHANNEL_BAND_UNKNOWN), None);
}

#[test]
fn channel_to_mhz_negative_channel_yields_none() {
    assert_eq!(channel_to_mhz(-1, CW_CHANNEL_BAND_2GHZ), None);
}

#[test]
fn list_adapters_either_succeeds_or_returns_no_adapter() {
    let names = vec![Some("en0".to_string()), None, Some("en1".to_string())];
    let adapters = list_adapters(Some(&names));
    assert_eq!(adapters.len(), 2);
    for a in adapters {
        assert!(!a.id.as_str().is_empty(), "adapter id must be non-empty");
        assert!(!a.name.is_empty(), "adapter name must be non-empty");
    }
    assert!(list_adapters(None).is_empty());
}

#[test]
fn resolve_interface_round_trips_listed_adapters() {
    let names = vec![Some("en0".to_string())];
    for a in list_adapters(Some(&names)) {
        let found = names.iter().flatten().find(|n| *n == a.id.as_str());
        assert!(resolve_interface_by_id(found, &a.id).is_ok());
    }
    match resolve_interface_by_id::<u8>(None, &AdapterId::new("en7")) {
        Err(Error::AdapterNotFound(name)) => assert_eq!(name, "en7"),
        other => panic!("unexpected: {other:?}"),
    }
}

#[test]
fn remove_profile_for_nonexistent_ssid_returns_false() {
    assert!(!delete_wifi_password(ERR_SEC_ITEM_NOT_FOUND).unwrap());
}

#[test]
fn keychain_statuses() {
    assert!(delete_wifi_password(ERR_SEC_SUCCESS).unwrap());
    assert!(matches!(
        delete_wifi_password(ERR_SEC_AUTH_FAILED),
        Err(Error::PermissionDenied("Keychain"))
    ));
    assert!(delete_wifi_password(-50)
        .unwrap_err()
        .to_string()
        .ends_with("CWKeychainDeleteWiFiPassword failed: OSStatus -50"));
    assert!(keychain_entry_exists(ERR_SEC_SUCCESS));
    assert!(!keychain_entry_exists(ERR_SEC_ITEM_NOT_FOUND));
}

#[test]
fn associate_failures_by_domain_and_code() {
    let cw = "cw.domain";
    let map = |domain: &str, code: i64| map_associate_nserror(&ns_error(domain, code), cw);
    for code in [
        -3906, -3910, -3912, -3924, -3925, -3918, -3919, -3920, -3923, -3909, -3908,
    ] {
        assert!(matches!(map(cw, code), Error::AuthenticationFailed));
    }
    assert!(matches!(map(cw, -3930), Error::PermissionDenied("CoreWLAN")));
    assert!(matches!(map(cw, -3905), Error::Timeout(d) if d == Duration::ZERO));
    assert!(matches!(map(cw, -3900), Error::SsidNotInRange));
    assert!(map(cw, 0).to_string().contains("CWNoErr"));
    assert_eq!(
        map(cw, -3901).to_string(),
        "internal os error: CoreWLAN association failed: CWErr(-3901)"
    );
    assert!(matches!(
        map("kCLErrorDomain", -3900),
        Error::PermissionDenied("Location Services")
    ));
    match map("elsewhere", -3900) {
        Error::Os(os) => assert!(matches!(*os, OsError::Message(text) if text == "it failed")),
        other => panic!("unexpected: {other:?}"),
    }
    assert!(matches!(
        map_scan_nserror_to_error(&ns_error("kCLErrorDomain", 1)),
        Error::PermissionDenied("Location Services")
    ));
    assert!(matches!(
        map_scan_nserror_to_error(&ns_error(cw, -3905)),
        Error::Os(_)
    ));
}

#[test]
fn macos_connect_decisions() {
    assert_eq!(
        mac_connect::preflight_budget(Duration::from_secs(30)),
        Duration::from_secs(5)
    );
    assert_eq!(
        mac_connect::preflight_budget(Duration::from_secs(6)),
        Duration::from_secs(3)
    );
    assert!(matches!(
        mac_connect::after_preflight(ScanOutcome::NotVisible),
        Err(Error::SsidNotInRange)
    ));
    assert!(mac_connect::after_preflight(ScanOutcome::Skipped).is_ok());
    assert!(matches!(
        mac_connect::scan_name(&Ssid::from_bytes(vec![0xff])),
        Err(Error::Unsupported(_))
    ));
    assert_eq!(mac_connect::scan_name(&Ssid::from_utf8("Net")).unwrap(), "Net");
    assert_eq!(mac_connect::connect_blocking(Ok(vec![3, 1, 2])).unwrap(), 3);
    assert!(matches!(
        mac_connect::connect_blocking::<u8>(Ok(vec![])),
        Err(Error::SsidNotInRange)
    ));
    assert!(matches!(
        mac_connect::connect_blocking::<u8>(Err(ns_error("x", 1))),
        Err(Error::Os(_))
    ));
    let limit = Duration::from_secs(2);
    assert!(matches!(
        mac_connect::connect(None, limit),
        Err(Error::Timeout(d)) if d == limit
    ));
    assert!(matches!(
        mac_connect::connect(Some(Err(Error::UserCancelled)), limit),
        Err(Error::UserCancelled)
    ));
}

#[test]
fn a_missing_keychain_entry_means_no_stored_credentials() {
    let net = Ssid::from_utf8("Net");
    assert!(matches!(
        mac_connect::connect_with_stored(Err(Error::AuthenticationFailed)),
        mac_connect::StoredStep::ProbeKeychain
    ));
    assert!(matches!(
        mac_connect::connect_with_stored(Ok(())),
        mac_connect::StoredStep::Done(Ok(()))
    ));
    assert!(matches!(
        mac_connect::stored_failure(true, &net),
        Error::AuthenticationFailed
    ));
    assert!(matches!(
        mac_connect::stored_failure(false, &net),
        Error::NoStoredCredentials(name) if name == "Net"
    ));
    assert!(mac_connect::disconnect_blocking(Some(&net), &net));
    assert!(!mac_connect::disconnect_blocking(Some(&Ssid::from_utf8("X")), &net));
    assert!(!mac_connect::disconnect_blocking(None, &net));
}

#[test]
fn cw_networks_become_observations() {
    let network = |rssi: i64, ssid: Option<&str>| CwNetwork {
        ssid_data: ssid.map(|s| s.as_bytes().to_vec()),
        rssi,
        bssid: Some("aa:bb:cc:dd:ee:ff".to_string()),
        channel: Some(CwChannel { number: 36, band: CW_CHANNEL_BAND_5GHZ }),
        supports: {
            let mut s = [false; 16];
            s[4] = true;
            s
        },
    };
    let out = fetch_bsses_blocking(Ok(Some(vec![
        network(-60, Some("Net")),
        network(-60, None),
        network(0, Some("Stale")),
    ])))
    .unwrap();
    assert_eq!(out.len(), 2);
    assert_eq!(out[0].rssi_dbm, Some(-60));
    assert_eq!(out[0].quality, 80);
    assert_eq!(out[0].frequency_mhz, Some(5180));
    assert_eq!(out[0].bssid, Some([0xaa, 0xbb, 0xcc, 0xdd, 0xee, 0xff]));
    assert_eq!(out[0].security, SecurityFlags::wpa2_psk());
    assert_eq!(out[1].ssid.as_str(), Some("Stale"));
    assert_eq!(out[1].rssi_dbm, None);
    assert_eq!(out[1].quality, 0);
    assert!(fetch_bsses_blocking(Ok(None)).unwrap().is_empty());
    assert!(matches!(
        fetch_bsses_blocking(Err(ns_error("kCLErrorDomain", 1))),
        Err(Error::PermissionDenied("Location Services"))
    ));
}

#[test]
fn saved_profiles_need_a_keychain_entry() {
    let profile = |ssid: Option<&str>, in_keychain: bool| ProfileReading {
        ssid_data: ssid.map(|s| s.as_bytes().to_vec()),
        in_keychain,
    };
    let ctx = fetch_scan_context_blocking(
        Some(b"Net".to_vec()),
        &vec![profile(Some("Net"), true), profile(Some("Old"), false), profile(None, true)],
    );
    assert!(ctx.connected_ssid.unwrap().same_as(&Ssid::from_utf8("Net")));
    assert!(ctx.saved_ssids.contains(&Ssid::from_utf8("Net")));
    assert!(!ctx.saved_ssids.contains(&Ssid::from_utf8("Old")));
}
