//! The Android backend's decisions.

use std::time::Duration;

use uniwifi::error::OsError;
use uniwifi::flags::SecurityFlags;
use uniwifi::platform::android::backend::{
    check_adapter, list_adapters, require_ndk_context, SuggestionCache,
};
use uniwifi::platform::android::permissions::host_can_scan;
use uniwifi::platform::android::post_connection::{
    post_connection_budget, wait_for_post_connection, WaitStep,
};
use uniwifi::platform::android::scan_receiver::{
    fetch_bsses_blocking, fetch_scan_context_blocking, read_connected_ssid, ScanResult,
};
use uniwifi::platform::android::security::security_from_capabilities;
use uniwifi::platform::android::status_codes::{
    map_add_status, map_remove_status, RemoveOutcome,
    STATUS_NETWORK_SUGGESTIONS_ERROR_ADD_DUPLICATE,
    STATUS_NETWORK_SUGGESTIONS_ERROR_ADD_EXCEEDS_MAX_PER_APP,
    STATUS_NETWORK_SUGGESTIONS_ERROR_APP_DISALLOWED, STATUS_NETWORK_SUGGESTIONS_ERROR_INTERNAL,
    STATUS_NETWORK_SUGGESTIONS_ERROR_REMOVE_INVALID,
    STATUS_NETWORK_SUGGESTIONS_ERROR_RESTRICTED_BY_ADMIN, STATUS_NETWORK_SUGGESTIONS_SUCCESS,
};
use uniwifi::platform::android::suggestion::build_suggestion;
use uniwifi::platform::android::wifi_manager::{current_ssid, strip_quotes};
use uniwifi::platform::android::wifi_specifier::{
    connect_via_specifier, network_has_ipv4, try_bind_new_wifi, NetworkReading, SpecifierPhase,
    SpecifierStep,
};
use uniwifi::{AdapterId, Credentials, Error, Ssid};

#[test]
fn list_adapters_returns_synthetic_wlan0() {
    let adapters = list_adapters();
    assert_eq!(adapters.len(), 1);
    assert_eq!(adapters[0].id.as_str(), "wlan0");
    assert_eq!(adapters[0].name, "Wi-Fi");
}

#[test]
fn other_android_adapters_are_not_found() {
    assert!(check_adapter(&AdapterId::new("wlan0")).is_ok());
    match check_adapter(&AdapterId::new("wlan1")) {
        Err(Error::AdapterNotFound(name)) => assert_eq!(name, "wlan1"),
        other => panic!("unexpected: {other:?}"),
    }
}

#[test]
fn a_context_is_needed() {
    assert!(require_ndk_context(true, true).is_ok());
    assert!(matches!(
        require_ndk_context(false, false),
        Err(Error::Unsupported("ndk-context not initialized"))
    ));
    assert!(matches!(
        require_ndk_context(true, false),
        Err(Error::Unsupported("ndk-context Context is null"))
    ));
}

#[test]
fn ess_only_means_open() {
    assert_eq!(security_from_capabilities("[ESS]"), SecurityFlags::open());
}

#[test]
fn empty_string_means_open() {
    assert_eq!(security_from_capabilities(""), SecurityFlags::open());
}

#[test]
fn wpa2_psk() {
    assert_eq!(
        security_from_capabilities("[WPA2-PSK-CCMP][ESS]"),
        SecurityFlags::wpa2_psk()
    );
}

#[test]
fn legacy_wpa1_psk() {
    assert_eq!(
        security_from_capabilities("[WPA-PSK-TKIP][ESS]"),
        SecurityFlags::wpa_psk()
    );
}

#[test]
fn security_transition_psk_plus_sae() {
    assert_eq!(
        security_from_capabilities("[WPA2-PSK-CCMP][RSN-SAE-CCMP][ESS]"),
        SecurityFlags::wpa2_psk() | SecurityFlags::wpa3_sae()
    );
}

#[test]
fn enterprise() {
    assert_eq!(
        security_from_capabilities("[WPA2-EAP-CCMP][ESS]"),
        SecurityFlags::wpa2_enterprise()
    );
}

#[test]
fn wep() {
    assert_eq!(security_from_capabilities("[WEP][ESS]"), SecurityFlags::wep());
}

#[test]
fn security_owe_alone_not_open() {
    let s = security_from_capabilities("[RSN-OWE-CCMP][ESS]");
    assert_eq!(s, SecurityFlags::owe());
    assert!(!s.contains(SecurityFlags::open()));
}

#[test]
fn fast_transition_sae_classifies_as_wpa3() {
    let s = security_from_capabilities("[ESS][RSN-FT/SAE-CCMP]");
    assert_eq!(s, SecurityFlags::wpa3_sae());
}

#[test]
fn fast_transition_psk_classifies_as_wpa2() {
    let s = security_from_capabilities("[ESS][RSN-FT/PSK-CCMP]");
    assert_eq!(s, SecurityFlags::wpa2_psk());
}

#[test]
fn fast_transition_eap_classifies_as_enterprise() {
    let s = security_from_capabilities("[ESS][RSN-FT/EAP-SHA256-CCMP]");
    assert_eq!(s, SecurityFlags::wpa2_enterprise());
}

#[test]
fn plus_joined_psk_sae_yields_both_bits() {
    let s = security_from_capabilities("[WPA2-PSK+SAE-CCMP][ESS]");
    assert_eq!(s, SecurityFlags::wpa2_psk() | SecurityFlags::wpa3_sae());
}

#[test]
fn unusual_capability_texts() {
    // Topology tokens count with any number of closing brackets.
    assert_eq!(security_from_capabilities("[ESS]]][WPS]"), SecurityFlags::open());
    // An unknown token is a security token, though it names no known mode.
    assert!(security_from_capabilities("[RSN-FOO][ESS]").is_empty());
    assert_eq!(
        security_from_capabilities("WPA-EAP"),
        SecurityFlags::wpa2_enterprise()
    );
    // Nothing else is looked for in a WEP token.
    assert_eq!(security_from_capabilities("[WEP-PSK]"), SecurityFlags::wep());
}

#[test]
fn add_success_is_ok() {
    assert!(map_add_status(STATUS_NETWORK_SUGGESTIONS_SUCCESS).is_ok());
}

#[test]
fn add_duplicate_is_ok() {
    assert!(map_add_status(STATUS_NETWORK_SUGGESTIONS_ERROR_ADD_DUPLICATE).is_ok());
}

#[test]
fn add_app_disallowed_is_permission_denied() {
    let e = map_add_status(STATUS_NETWORK_SUGGESTIONS_ERROR_APP_DISALLOWED).unwrap_err();
    assert!(matches!(e, Error::PermissionDenied(_)));
}

#[test]
fn add_internal_is_os_error() {
    let e = map_add_status(STATUS_NETWORK_SUGGESTIONS_ERROR_INTERNAL).unwrap_err();
    assert!(matches!(e, Error::Os(_)));
}

#[test]
fn remove_success_is_was_removed() {
    let outcome = map_remove_status(STATUS_NETWORK_SUGGESTIONS_SUCCESS).unwrap();
    assert_eq!(outcome, RemoveOutcome::WasRemoved);
}

#[test]
fn remove_invalid_is_not_present() {
    // The OS-side suggestion was already gone. Distinguishable from
    // success so `remove_profile` can return `Ok(false)` and the
    // contract holds.
    let outcome = map_remove_status(STATUS_NETWORK_SUGGESTIONS_ERROR_REMOVE_INVALID).unwrap();
    assert_eq!(outcome, RemoveOutcome::NotPresent);
}

#[test]
fn unknown_status_is_os_error() {
    assert!(matches!(map_add_status(999).unwrap_err(), Error::Os(_)));
    assert!(matches!(map_remove_status(999).unwrap_err(), Error::Os(_)));
}

#[test]
fn add_restricted_by_admin_is_permission_denied() {
    let e = map_add_status(STATUS_NETWORK_SUGGESTIONS_ERROR_RESTRICTED_BY_ADMIN).unwrap_err();
    assert!(matches!(e, Error::PermissionDenied(_)));
}

#[test]
fn status_messages() {
    let e = map_add_status(-7).unwrap_err();
    assert_eq!(
        e.to_string(),
        "internal os error: WifiManager add: unknown status -7"
    );
    let e = map_remove_status(999).unwrap_err();
    assert_eq!(
        e.to_string(),
        "internal os error: WifiManager remove: unknown status 999"
    );
    let e = map_add_status(STATUS_NETWORK_SUGGESTIONS_ERROR_ADD_EXCEEDS_MAX_PER_APP).unwrap_err();
    assert!(e.to_string().ends_with("ERROR_ADD_EXCEEDS_MAX_PER_APP"));
}

#[test]
fn quotes_are_stripped_in_pairs() {
    assert_eq!(strip_quotes("\"Net\""), "Net");
    assert_eq!(strip_quotes("\"Net"), "\"Net");
    assert_eq!(strip_quotes("\""), "\"");
    assert_eq!(strip_quotes("\"\""), "");
    assert_eq!(strip_quotes(""), "");
}

#[test]
fn the_unknown_ssid_is_none() {
    assert_eq!(current_ssid(Some("<unknown ssid>")), None);
    assert_eq!(current_ssid(None), None);
    assert_eq!(current_ssid(Some("\"Net\"")), Some("Net".to_string()));
    assert!(read_connected_ssid(Some("<unknown ssid>")).is_none());
    assert!(read_connected_ssid(Some("\"\"")).is_none());
    assert_eq!(
        read_connected_ssid(Some("\"Net\"")).unwrap().as_bytes(),
        b"Net"
    );
}

#[test]
fn one_granted_permission_is_enough() {
    assert!(host_can_scan(vec![Ok(-1), Ok(0)]).unwrap());
    assert!(!host_can_scan(vec![Ok(-1), Ok(-1)]).unwrap());
    // A failed check counts only when nothing before it was granted.
    assert!(host_can_scan(vec![Ok(0), Err(Error::NoAdapter)]).unwrap());
    assert!(matches!(
        host_can_scan(vec![Err(Error::NoAdapter), Ok(0)]),
        Err(Error::NoAdapter)
    ));
}

#[test]
fn scans_need_the_permission() {
    assert!(matches!(
        fetch_bsses_blocking(Ok(false), Ok(()), None),
        Err(Error::PermissionDenied(
            "ACCESS_FINE_LOCATION or NEARBY_WIFI_DEVICES"
        ))
    ));
    let e = fetch_bsses_blocking(Err("gone".to_string()), Ok(()), None)
        .err()
        .unwrap();
    match e {
        Error::Os(os) => match *os {
            OsError::Message(text) => assert_eq!(text, "jni error: gone"),
            other => panic!("unexpected: {other:?}"),
        },
        other => panic!("unexpected: {other:?}"),
    }
    assert!(fetch_bsses_blocking(Ok(true), Err("no manager".to_string()), None).is_err());
    assert!(fetch_bsses_blocking(Ok(true), Ok(()), None).unwrap().is_empty());
}

#[test]
fn scan_results_become_observations() {
    let results = vec![
        ScanResult {
            ssid: None,
            bssid: None,
            level: -40,
            frequency: 2412,
            capabilities: None,
        },
        ScanResult {
            ssid: Some("Net".to_string()),
            bssid: Some("11:22:33:44:55:66".to_string()),
            level: -75,
            frequency: 5180,
            capabilities: Some("[WPA2-PSK-CCMP][ESS]".to_string()),
        },
        ScanResult {
            ssid: Some("Bare".to_string()),
            bssid: Some("nonsense".to_string()),
            level: -100,
            frequency: -1,
            capabilities: None,
        },
    ];
    let out = fetch_bsses_blocking(Ok(true), Ok(()), Some(results)).unwrap();
    assert_eq!(out.len(), 2);
    assert_eq!(out[0].ssid.as_str(), Some("Net"));
    assert_eq!(out[0].rssi_dbm, Some(-75));
    assert_eq!(out[0].quality, 50);
    assert_eq!(out[0].bssid, Some([0x11, 0x22, 0x33, 0x44, 0x55, 0x66]));
    assert_eq!(out[0].frequency_mhz, Some(5180));
    assert_eq!(out[0].security, SecurityFlags::wpa2_psk());
    assert_eq!(out[1].bssid, None);
    assert_eq!(out[1].frequency_mhz, None);
    assert_eq!(out[1].security, SecurityFlags::open());
}

#[test]
fn waits_for_the_right_association() {
    let target = Ssid::from_utf8("Net");
    let limit = Duration::from_secs(9);
    let net = || Some("Net".to_string());
    let other = || Some("Other".to_string());
    assert!(matches!(
        wait_for_post_connection(net(), None, &target, true, limit),
        WaitStep::Associated
    ));
    assert!(matches!(
        wait_for_post_connection(None, net(), &target, true, limit),
        WaitStep::Associated
    ));
    assert!(matches!(
        wait_for_post_connection(other(), other(), &target, false, limit),
        WaitStep::KeepWaiting
    ));
    match wait_for_post_connection(other(), None, &target, true, limit) {
        WaitStep::GiveUp(Error::Timeout(d)) => assert_eq!(d, limit),
        step => panic!("unexpected: {step:?}"),
    }
    let raw = Ssid::from_bytes(vec![0xff]);
    assert!(matches!(
        wait_for_post_connection(None, None, &raw, false, limit),
        WaitStep::GiveUp(Error::Unsupported(_))
    ));
}

#[test]
fn the_wait_has_at_least_a_second() {
    assert_eq!(
        post_connection_budget(Duration::from_secs(30)),
        Duration::from_secs(20)
    );
    assert_eq!(
        post_connection_budget(Duration::from_millis(900)),
        Duration::from_secs(1)
    );
    assert_eq!(post_connection_budget(Duration::ZERO), Duration::from_secs(1));
}

#[test]
fn a_specifier_connect_binds_and_then_waits_for_an_address() {
    let limit = Duration::from_secs(3);
    assert!(matches!(
        connect_via_specifier(SpecifierPhase::Searching, false, false, limit),
        SpecifierStep::Sleep(SpecifierPhase::Searching)
    ));
    assert!(matches!(
        connect_via_specifier(SpecifierPhase::Searching, true, false, limit),
        SpecifierStep::Sleep(SpecifierPhase::Bound)
    ));
    assert!(matches!(
        connect_via_specifier(SpecifierPhase::Bound, true, true, limit),
        SpecifierStep::Connected
    ));
    match connect_via_specifier(SpecifierPhase::Searching, true, true, limit) {
        SpecifierStep::GiveUp(Error::Timeout(d)) => assert_eq!(d, limit),
        step => panic!("unexpected: {step:?}"),
    }
}

#[test]
fn only_new_wifi_networks_are_bound() {
    let before = vec![1, 2];
    let networks = vec![
        NetworkReading { handle: 1, is_wifi: true },
        NetworkReading { handle: 3, is_wifi: false },
        NetworkReading { handle: 4, is_wifi: true },
        NetworkReading { handle: 5, is_wifi: true },
    ];
    assert_eq!(try_bind_new_wifi(&before, &networks, 0), Some(2));
    assert_eq!(try_bind_new_wifi(&before, &networks, 3), Some(3));
    assert_eq!(try_bind_new_wifi(&before, &networks, 4), None);
    assert!(network_has_ipv4(&vec![false, true]));
    assert!(!network_has_ipv4(&vec![false]));
    assert!(!network_has_ipv4(&vec![]));
}

#[test]
fn suggestions_need_text_ssids() {
    let r = build_suggestion(&Ssid::from_utf8("Net"), &Credentials::password("pw"))
        .ok()
        .unwrap();
    assert_eq!(r.ssid, "Net");
    assert_eq!(r.passphrase, Some("pw".to_string()));
    let r = build_suggestion(&Ssid::from_utf8("Net"), &Credentials::Open)
        .ok()
        .unwrap();
    assert_eq!(r.passphrase, None);
    assert!(matches!(
        build_suggestion(&Ssid::from_bytes(vec![0xff]), &Credentials::Open),
        Err(Error::Unsupported("non-UTF8 SSIDs not supported on Android"))
    ));
}

#[test]
fn the_cache_follows_what_the_os_removed() {
    let net = Ssid::from_utf8("Net");
    let mut cache: SuggestionCache<u32> = SuggestionCache::new();
    assert!(matches!(
        cache.stored_suggestion(&net),
        Err(Error::NoStoredCredentials(_))
    ));
    cache.cache_suggestion(net.clone(), 7);
    assert_eq!(cache.cached_suggestion(&net), Some(&7));
    assert_eq!(cache.stored_suggestion(&net).unwrap(), &7);
    let ctx = fetch_scan_context_blocking(Some("\"Net\""), cache.cached_suggestion_ssids());
    assert!(ctx.saved_ssids.contains(&net));
    assert!(ctx.connected_ssid.unwrap().same_as(&net));

    // An error keeps the suggestion; one that the OS did not know stays cached
    // after a removal, and goes with a disconnect.
    assert!(cache.finish_disconnect(&net, 1).is_err());
    assert!(cache.finish_remove(&net, 2).is_err());
    assert!(!cache.finish_remove(&net, 5).unwrap());
    assert_eq!(cache.cached_suggestion(&net), Some(&7));
    assert!(cache.finish_disconnect(&net, 5).is_ok());
    assert_eq!(cache.cached_suggestion(&net), None);

    cache.cache_suggestion(net.clone(), 8);
    assert!(cache.finish_remove(&net, 0).unwrap());
    assert!(!cache.evict_suggestion(&net));
}
