//! The Native Wifi backend's decisions.

use std::time::Duration;

use uniwifi::platform::windows::adapters::{list_adapters, utf16_to_string, InterfaceEntry};
use uniwifi::platform::windows::connect::{
    after_preflight, install_profile, issue_connect, issue_disconnect, preflight_budget,
    profile_for, profile_name_from_ssid, run_connect, run_connect_stored, to_wide, ConnectWait,
};
use uniwifi::platform::windows::disconnect::{current_ssid, run_disconnect_blocking};
use uniwifi::platform::windows::notifications::{
    ConnectOutcome, Delivery, Dispatcher, Notification, CONNECTION_ATTEMPT_FAIL,
    CONNECTION_COMPLETE, SCAN_COMPLETE, SCAN_FAIL, SOURCE_ACM,
};
use uniwifi::platform::windows::profile::run_remove_profile;
use uniwifi::platform::windows::profile_xml::{
    build_open_profile, build_wpa2_psk_profile, bytes_to_upper_hex, xml_escape,
};
use uniwifi::platform::windows::reason::{
    map_reason_code, NETWORK_NOT_AVAILABLE, PSK_MISMATCH_SUSPECTED, USER_CANCELLED,
};
use uniwifi::platform::windows::scan::{
    collect_bsses_blocking, collect_context_blocking, finish_scan, scan_wait, AvailableNetwork,
    BssEntry, Dot11Ssid, ScanWait,
};
use uniwifi::platform::windows::security::{
    security_from_auth_cipher, AUTH_80211_OPEN, AUTH_OWE, AUTH_RSNA_PSK, AUTH_WPA3_ENT_192,
    AUTH_WPA3_SAE, CIPHER_CCMP, CIPHER_NONE, CIPHER_WEP,
};
use uniwifi::platform::windows::util::{
    adapter_id_to_guid, check_win32, guid_to_adapter_id, Guid, ERROR_NOT_FOUND,
};
use uniwifi::preflight::ScanOutcome;
use uniwifi::{AdapterId, ConnectOptions, Credentials, Error, SecurityFlags, Ssid};

fn ssid(s: &str) -> Ssid {
    Ssid::from_utf8(s)
}

#[test]
fn wpa2_psk_includes_authentication_and_key() {
    let xml = build_wpa2_psk_profile(&ssid("Office"), "tea4two");
    assert!(xml.contains("<name>Office</name>"));
    assert!(xml.contains("<authentication>WPA2PSK</authentication>"));
    assert!(xml.contains("<encryption>AES</encryption>"));
    assert!(xml.contains("<keyType>passPhrase</keyType>"));
    assert!(xml.contains("<protected>false</protected>"));
    assert!(xml.contains("<keyMaterial>tea4two</keyMaterial>"));
    assert!(xml.contains("xmlns=\"http://www.microsoft.com/networking/WLAN/profile/v1\""));
}

#[test]
fn open_profile_omits_shared_key_block() {
    let xml = build_open_profile(&ssid("Hotspot"));
    assert!(xml.contains("<authentication>open</authentication>"));
    assert!(xml.contains("<encryption>none</encryption>"));
    assert!(!xml.contains("<sharedKey>"));
    assert!(!xml.contains("keyMaterial"));
}

#[test]
fn profiles_agree_outside_security() {
    for name in [ssid("Cafe & Bar"), Ssid::from_bytes(vec![0xff, b'<', 0x80])] {
        let open = build_open_profile(&name);
        let psk = build_wpa2_psk_profile(&name, "tea</security>4two");
        let (open_head, open_rest) = open.split_once("<security>").unwrap();
        let (psk_head, psk_rest) = psk.split_once("<security>").unwrap();
        assert_eq!(open_head, psk_head);
        let (open_security, open_tail) = open_rest.split_once("</security>").unwrap();
        let (psk_security, psk_tail) = psk_rest.split_once("</security>").unwrap();
        assert_eq!(open_tail, psk_tail);
        assert!(!open_security.contains("sharedKey"));
        assert!(psk_security.contains("<keyMaterial>tea&lt;/security&gt;4two</keyMaterial>"));
    }
    assert_eq!(
        build_open_profile(&ssid("X")),
        "<?xml version=\"1.0\" encoding=\"US-ASCII\"?>\n\
         <WLANProfile xmlns=\"http://www.microsoft.com/networking/WLAN/profile/v1\">\n  \
         <name>X</name>\n  <SSIDConfig>\n    <SSID>\n      <name>X</name>\n    </SSID>\n  \
         </SSIDConfig>\n  <connectionType>ESS</connectionType>\n  \
         <connectionMode>manual</connectionMode>\n  <autoSwitch>false</autoSwitch>\n  <MSM>\n    \
         <security>\n      <authEncryption>\n        <authentication>open</authentication>\n        \
         <encryption>none</encryption>\n        <useOneX>false</useOneX>\n      \
         </authEncryption>\n    </security>\n  </MSM>\n</WLANProfile>"
    );
}

#[test]
fn xml_special_chars_in_ssid_are_escaped() {
    let xml = build_wpa2_psk_profile(&ssid("A&B<C>\"D'"), "pw");
    assert!(xml.contains("A&amp;B&lt;C&gt;&quot;D&apos;"));
    assert!(!xml.contains("A&B<C>"));
}

#[test]
fn xml_special_chars_in_passphrase_are_escaped() {
    let xml = build_wpa2_psk_profile(&ssid("Net"), "p&w<x>\"'");
    assert!(xml.contains("p&amp;w&lt;x&gt;&quot;&apos;"));
}

#[test]
fn non_utf8_ssid_is_hex_encoded_in_ssid_hex_block() {
    // SSIDs containing non-UTF-8 bytes use the <hex> child of <SSID>
    // instead of <name>. The profile <name> still uses the lossy UTF-8
    // form (since profile names must be a valid Windows string).
    let raw = Ssid::from_bytes(vec![0xff, 0x41, 0x42]); // 0xFF + "AB"
    let xml = build_wpa2_psk_profile(&raw, "pw");
    assert!(xml.contains("<hex>FF4142</hex>"));
    // The profile <name> is the lossy decode (replacement char + AB).
    assert!(xml.contains("<name>") && xml.contains("AB"));
    assert!(xml.contains("<name>\u{fffd}AB</name>"));
}

#[test]
fn profile_names_are_texts() {
    assert_eq!(profile_name_from_ssid(&ssid("Net")), "Net");
    assert_eq!(
        profile_name_from_ssid(&Ssid::from_bytes(vec![0x41, 0xff])),
        "A\u{fffd}"
    );
    assert!(profile_for(&ssid("Net"), &Credentials::Open).contains("open</authentication>"));
    assert!(profile_for(&ssid("Net"), &Credentials::password("pw"))
        .contains("<keyMaterial>pw</keyMaterial>"));
}

#[test]
fn escaping_leaves_no_markup() {
    assert_eq!(xml_escape("<a b='c'>&\""), "&lt;a b=&apos;c&apos;&gt;&amp;&quot;");
    assert_eq!(xml_escape("plain"), "plain");
    assert_ne!(xml_escape("&"), xml_escape("&amp;"));
    assert_eq!(bytes_to_upper_hex(&[0x0a, 0xff]), "0AFF");
}

#[test]
fn success_is_ok() {
    assert!(map_reason_code(0).is_ok());
}

#[test]
fn psk_mismatch_is_authentication_failed() {
    assert!(matches!(
        map_reason_code(PSK_MISMATCH_SUSPECTED),
        Err(Error::AuthenticationFailed)
    ));
}

#[test]
fn network_not_available_is_ssid_not_in_range() {
    assert!(matches!(
        map_reason_code(NETWORK_NOT_AVAILABLE),
        Err(Error::SsidNotInRange)
    ));
}

#[test]
fn user_cancelled_is_user_cancelled() {
    assert!(matches!(
        map_reason_code(USER_CANCELLED),
        Err(Error::UserCancelled)
    ));
}

#[test]
fn unknown_code_is_os_error() {
    let err = map_reason_code(0xDEAD_BEEF).expect_err("expected error");
    assert!(matches!(err, Error::Os(_)));
    assert!(err.to_string().contains("0xDEADBEEF"));
}

#[test]
fn open_no_cipher() {
    assert_eq!(
        security_from_auth_cipher(AUTH_80211_OPEN, CIPHER_NONE),
        SecurityFlags::open()
    );
}

#[test]
fn open_with_wep_cipher_is_wep() {
    // Some adapters report 80211_OPEN + WEP cipher as a "WEP open
    // system" arrangement.
    assert_eq!(
        security_from_auth_cipher(AUTH_80211_OPEN, CIPHER_WEP),
        SecurityFlags::wep()
    );
}

#[test]
fn security_wpa2_psk() {
    assert_eq!(
        security_from_auth_cipher(AUTH_RSNA_PSK, CIPHER_CCMP),
        SecurityFlags::wpa2_psk()
    );
}

#[test]
fn security_wpa3_sae() {
    assert_eq!(
        security_from_auth_cipher(AUTH_WPA3_SAE, CIPHER_CCMP),
        SecurityFlags::wpa3_sae()
    );
}

#[test]
fn owe() {
    assert_eq!(
        security_from_auth_cipher(AUTH_OWE, CIPHER_CCMP),
        SecurityFlags::owe()
    );
}

/// The SDK gives WPA3 and WPA3_ENT_192 the same value.
#[test]
fn wpa3_ent_192_alias_maps_to_enterprise() {
    assert_eq!(
        security_from_auth_cipher(AUTH_WPA3_ENT_192, CIPHER_CCMP),
        SecurityFlags::wpa3_enterprise()
    );
}

#[test]
fn success_yields_ok() {
    assert!(check_win32("test", 0).is_ok());
}

#[test]
fn nonzero_yields_os_error() {
    let err = check_win32("WlanOpenHandle", 5).expect_err("expected Os error");
    let s = err.to_string();
    assert!(s.contains("WlanOpenHandle"), "got: {s}");
    assert!(s.contains("0x00000005"), "got: {s}");
}

fn guid(n: u32) -> Guid {
    Guid {
        data1: n,
        data2: 0x1234,
        data3: 0x1234,
        data4: [0x12, 0x34, 0x12, 0x34, 0x56, 0x78, 0x9a, 0xbc],
    }
}

#[test]
fn guid_round_trip() {
    let g = guid(0x1234_5678);
    let id = guid_to_adapter_id(&g);
    assert_eq!(id.as_str(), "{12345678-1234-1234-1234-123456789ABC}");

    let g2 = adapter_id_to_guid(&id).expect("round-trip");
    assert_eq!(g, g2);
}

#[test]
fn malformed_adapter_id_yields_adapter_not_found() {
    let id = AdapterId::new("not-a-guid");
    assert!(matches!(
        adapter_id_to_guid(&id),
        Err(Error::AdapterNotFound(_))
    ));
}

#[test]
fn guids_may_be_written_in_lower_case_but_in_braces() {
    let g = adapter_id_to_guid(&AdapterId::new("{12345678-1234-1234-1234-123456789abc}")).unwrap();
    assert_eq!(g, guid(0x1234_5678));
    assert!(adapter_id_to_guid(&AdapterId::new("12345678-1234-1234-1234-123456789ABC")).is_err());
    assert!(adapter_id_to_guid(&AdapterId::new("")).is_err());
    assert!(adapter_id_to_guid(&AdapterId::new("{12345678-1234-1234-1234-123456789ABG}")).is_err());
}

#[test]
fn wide_texts_round_trip() {
    for text in ["", "Wi-Fi", "Caf\u{e9} \u{1f4f6}"] {
        let wide = to_wide(text);
        assert_eq!(wide, text.encode_utf16().chain([0]).collect::<Vec<u16>>());
        assert_eq!(utf16_to_string(&wide), text);
    }
    // A lone surrogate is replaced.
    assert_eq!(utf16_to_string(&[0x41, 0xd800, 0x42, 0, 0x43]), "A\u{fffd}B");
}

#[test]
fn interfaces_are_adapters() {
    let entries = vec![InterfaceEntry {
        guid: guid(0x1234_5678),
        description: to_wide("Wireless"),
    }];
    let adapters = list_adapters(0, Some(entries)).unwrap();
    assert_eq!(adapters.len(), 1);
    assert_eq!(
        adapters[0].id.as_str(),
        "{12345678-1234-1234-1234-123456789ABC}"
    );
    assert_eq!(adapters[0].name, "Wireless");
    assert!(list_adapters(0, None).unwrap().is_empty());
    assert!(list_adapters(5, None)
        .err()
        .unwrap()
        .to_string()
        .contains("WlanEnumInterfaces: 0x00000005"));
}

#[test]
fn statuses_of_native_calls() {
    assert!(install_profile(0, 0).is_ok());
    assert!(install_profile(5, 0)
        .unwrap_err()
        .to_string()
        .contains("WlanSetProfile: 0x00000005"));
    assert!(install_profile(0, 0x50005)
        .unwrap_err()
        .to_string()
        .contains("WLAN_REASON_CODE 0x00050005"));
    assert!(issue_connect(0).is_ok());
    assert!(issue_connect(5).is_err());
    assert!(issue_disconnect(0).is_ok());
    assert!(issue_disconnect(5).is_err());
    assert!(run_remove_profile(0).unwrap());
    assert!(!run_remove_profile(ERROR_NOT_FOUND).unwrap());
    assert!(run_remove_profile(5).is_err());
    assert!(run_connect_stored(0, &ssid("Net")).is_ok());
    assert!(matches!(
        run_connect_stored(ERROR_NOT_FOUND, &ssid("Net")),
        Err(Error::NoStoredCredentials(name)) if name == "Net"
    ));
    assert!(matches!(
        run_connect_stored(5, &ssid("Net")),
        Err(Error::Os(_))
    ));
}

#[test]
fn windows_connect_decisions() {
    assert_eq!(preflight_budget(&ConnectOptions::default()), Duration::from_secs(5));
    assert_eq!(
        preflight_budget(&ConnectOptions { timeout: Some(Duration::from_secs(2)) }),
        Duration::from_secs(2)
    );
    assert!(matches!(
        after_preflight(ScanOutcome::NotVisible),
        Err(Error::SsidNotInRange)
    ));
    assert!(after_preflight(ScanOutcome::Skipped).is_ok());
    let limit = Duration::from_secs(7);
    let end = run_connect(ConnectWait::Outcome(ConnectOutcome::Connected), limit);
    assert!(end.result.is_ok() && !end.disconnect);
    let end = run_connect(
        ConnectWait::Outcome(ConnectOutcome::Failed(PSK_MISMATCH_SUSPECTED)),
        limit,
    );
    assert!(matches!(end.result, Err(Error::AuthenticationFailed)));
    assert!(!end.disconnect);
    let end = run_connect(ConnectWait::Outcome(ConnectOutcome::Failed(0)), limit);
    assert!(matches!(end.result, Err(Error::Os(_))));
    assert!(ConnectOutcome::Failed(0).into_result().is_err());
    assert!(ConnectOutcome::Connected.into_result().is_ok());
    let end = run_connect(ConnectWait::Deadline, limit);
    assert!(matches!(end.result, Err(Error::Timeout(d)) if d == limit));
    assert!(end.disconnect);
    let end = run_connect(ConnectWait::ChannelClosed, limit);
    assert!(matches!(end.result, Err(Error::Os(_))));
    assert!(!end.disconnect);
}

#[test]
fn a_reason_is_wanted_only_where_somebody_waits_for_it() {
    let here = Guid { data1: 1, data2: 2, data3: 3, data4: [4; 8] };
    let of = |source: u32, code: u32| Notification { source, interface: here, code, reason: None };
    let mut d: Dispatcher<u8, u8> = Dispatcher::new();
    assert!(!d.wants_reason(&of(SOURCE_ACM, CONNECTION_COMPLETE)));
    assert!(!d.wants_reason(&of(SOURCE_ACM, SCAN_FAIL)));
    d.pending_connect(here, 1);
    d.pending_scan(here, 2);
    assert!(d.wants_reason(&of(SOURCE_ACM, CONNECTION_COMPLETE)));
    assert!(d.wants_reason(&of(SOURCE_ACM, CONNECTION_ATTEMPT_FAIL)));
    assert!(d.wants_reason(&of(SOURCE_ACM, SCAN_FAIL)));
    assert!(!d.wants_reason(&of(SOURCE_ACM, SCAN_COMPLETE)));
    assert!(!d.wants_reason(&of(SOURCE_ACM, 9)));
    assert!(!d.wants_reason(&of(1, CONNECTION_COMPLETE)));
}

#[test]
fn a_late_scan_notification_reaches_nobody() {
    let here = Guid { data1: 1, data2: 2, data3: 3, data4: [4; 8] };
    let there = Guid { data1: 9, data2: 2, data3: 3, data4: [4; 8] };
    let complete = Notification { source: SOURCE_ACM, interface: here, code: SCAN_COMPLETE, reason: None };
    let elsewhere =
        Notification { source: SOURCE_ACM, interface: there, code: SCAN_COMPLETE, reason: None };
    assert_eq!(scan_wait(), Duration::from_secs(5));
    let mut d: Dispatcher<u8, u8> = Dispatcher::new();

    d.pending_scan(here, 1);
    d.pending_scan(there, 2);
    assert!(finish_scan(&mut d, here, ScanWait::Deadline).is_ok());
    assert!(d.dispatch(&complete).is_none());
    assert!(matches!(d.dispatch(&elsewhere), Some(Delivery::Scan(2, Ok(())))));

    d.pending_scan(here, 3);
    match finish_scan(&mut d, here, ScanWait::Refused(5)) {
        Err(e) => assert!(e.to_string().contains("WlanScan")),
        Ok(()) => panic!("a refused scan is an error"),
    }
    assert!(d.dispatch(&complete).is_none());

    d.pending_scan(here, 4);
    assert!(matches!(
        finish_scan(&mut d, here, ScanWait::NotCalled(Error::NoAdapter)),
        Err(Error::NoAdapter)
    ));
    assert!(d.dispatch(&complete).is_none());

    d.pending_scan(here, 5);
    assert!(matches!(d.dispatch(&complete), Some(Delivery::Scan(5, Ok(())))));
    d.pending_scan(here, 6);
    assert!(finish_scan(&mut d, here, ScanWait::Served).is_ok());
    assert!(matches!(d.dispatch(&complete), Some(Delivery::Scan(6, Ok(())))));
}

fn dot11(s: &str) -> Dot11Ssid {
    let mut octets = [0u8; 32];
    octets[..s.len()].copy_from_slice(s.as_bytes());
    Dot11Ssid {
        length: s.len() as u32,
        octets,
    }
}

#[test]
fn disconnects_only_from_the_named_ssid() {
    assert!(run_disconnect_blocking(0, Some(dot11("Net")), &ssid("Net")).unwrap());
    assert!(!run_disconnect_blocking(0, Some(dot11("Other")), &ssid("Net")).unwrap());
    assert!(!run_disconnect_blocking(0, None, &ssid("Net")).unwrap());
    assert!(!run_disconnect_blocking(ERROR_NOT_FOUND, None, &ssid("Net")).unwrap());
    assert!(run_disconnect_blocking(5, None, &ssid("Net")).is_err());
    assert!(current_ssid(0, Some(Dot11Ssid { length: 33, octets: [1; 32] }))
        .unwrap()
        .is_none());
}

fn notification(code: u32, interface: Guid, reason: Option<u32>) -> Notification {
    Notification {
        source: SOURCE_ACM,
        interface,
        code,
        reason,
    }
}

#[test]
fn waiters_are_told_once() {
    let mut d: Dispatcher<&str, &str> = Dispatcher::new();
    d.pending_connect(guid(1), "c1");
    d.pending_connect(guid(2), "c2");
    d.pending_scan(guid(1), "s1");

    match d.dispatch(&notification(CONNECTION_COMPLETE, guid(1), Some(0))) {
        Some(Delivery::Connect("c1", outcome)) => assert_eq!(outcome, ConnectOutcome::Connected),
        other => panic!("unexpected: {other:?}"),
    }
    assert!(d
        .dispatch(&notification(CONNECTION_COMPLETE, guid(1), Some(0)))
        .is_none());
    match d.dispatch(&notification(CONNECTION_ATTEMPT_FAIL, guid(2), Some(7))) {
        Some(Delivery::Connect("c2", outcome)) => assert_eq!(outcome, ConnectOutcome::Failed(7)),
        other => panic!("unexpected: {other:?}"),
    }
    match d.dispatch(&notification(SCAN_FAIL, guid(1), None)) {
        Some(Delivery::Scan("s1", Err(e))) => {
            assert!(e.to_string().contains("WlanScan: 0xffffffff"))
        }
        other => panic!("unexpected: {other:?}"),
    }
}

#[test]
fn other_sources_and_dropped_waiters_are_ignored() {
    let mut d: Dispatcher<u8, u8> = Dispatcher::new();
    d.pending_connect(guid(1), 1);
    d.pending_scan(guid(1), 2);
    let mut foreign = notification(CONNECTION_COMPLETE, guid(1), Some(0));
    foreign.source = 16;
    assert!(d.dispatch(&foreign).is_none());
    d.drop_pending_connect(guid(1));
    assert!(d
        .dispatch(&notification(CONNECTION_COMPLETE, guid(1), Some(0)))
        .is_none());
    assert!(matches!(
        d.dispatch(&notification(SCAN_COMPLETE, guid(1), None)),
        Some(Delivery::Scan(2, Ok(())))
    ));
    d.pending_scan(guid(1), 3);
    d.drop_pending_scan(guid(1));
    assert!(d.dispatch(&notification(SCAN_COMPLETE, guid(1), None)).is_none());
}

fn available(name: &str, profile: &str, bsses: Option<Vec<BssEntry>>) -> AvailableNetwork {
    AvailableNetwork {
        ssid: dot11(name),
        auth: AUTH_RSNA_PSK,
        cipher: CIPHER_CCMP,
        signal_quality: 88,
        profile_name: to_wide(profile),
        bsses,
    }
}

#[test]
fn listed_networks_become_observations() {
    let entry = BssEntry {
        rssi: -60,
        bssid: [1, 2, 3, 4, 5, 6],
        center_frequency_khz: 5_180_000,
    };
    let nets = vec![
        available("", "", None),
        available("Net", "", Some(vec![entry])),
        available("Bare", "", None),
    ];
    let out = collect_bsses_blocking(0, Some(nets)).unwrap();
    assert_eq!(out.len(), 2);
    assert_eq!(out[0].ssid.as_str(), Some("Net"));
    assert_eq!(out[0].rssi_dbm, Some(-60));
    assert_eq!(out[0].quality, 80);
    assert_eq!(out[0].bssid, Some([1, 2, 3, 4, 5, 6]));
    assert_eq!(out[0].frequency_mhz, Some(5180));
    assert_eq!(out[0].security, SecurityFlags::wpa2_psk());
    assert_eq!(out[1].ssid.as_str(), Some("Bare"));
    assert_eq!(out[1].rssi_dbm, None);
    assert_eq!(out[1].quality, 88);
    assert!(collect_bsses_blocking(5, None).is_err());
    assert!(collect_bsses_blocking(0, None).unwrap().is_empty());
}

#[test]
fn networks_with_a_profile_are_saved() {
    let nets = vec![available("Net", "Net", None), available("New", "", None)];
    let ctx = collect_context_blocking(Some(dot11("Net")), 0, Some(nets)).unwrap();
    assert!(ctx.connected_ssid.unwrap().same_as(&ssid("Net")));
    assert!(ctx.saved_ssids.contains(&ssid("Net")));
    assert!(!ctx.saved_ssids.contains(&ssid("New")));
    assert!(collect_context_blocking(None, 5, None).is_err());
}
