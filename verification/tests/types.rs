//! SSIDs, adapter ids, options, credentials and flags.

use std::time::Duration;

use uniwifi::{
    AdapterId, Band, ConnectOptions, Credentials, ScanOptions, SecurityFlags, Ssid, SsidError,
    VisibleNetwork,
};

#[test]
fn from_utf8_round_trips_ascii() {
    let s = Ssid::from_utf8("MyAccessPoint");
    assert_eq!(s.as_bytes(), b"MyAccessPoint");
    assert_eq!(s.as_str().unwrap(), "MyAccessPoint");
}

#[test]
fn from_str_trait_round_trips_ascii() {
    let s: Ssid = "MyAccessPoint".parse().unwrap();
    assert_eq!(s.as_bytes(), b"MyAccessPoint");
}

#[test]
fn from_bytes_accepts_non_utf8() {
    let s = Ssid::from_bytes(vec![0xff, 0xfe]);
    assert_eq!(s.as_bytes(), &[0xff, 0xfe]);
    assert!(s.as_str().is_none());
}

#[test]
fn rejects_empty_or_oversized() {
    assert!(Ssid::try_from_bytes(vec![]).is_err());
    assert!(Ssid::try_from_bytes(vec![0; 33]).is_err());
    assert!(Ssid::try_from_bytes(vec![0; 32]).is_ok());
}

#[test]
fn debug_does_not_panic_on_non_utf8() {
    let s = Ssid::from_bytes(vec![0xff]);
    let _ = format!("{s:?}");
}

#[test]
fn debug_forms() {
    assert_eq!(format!("{:?}", Ssid::from_utf8("home")), "Ssid(\"home\")");
    assert_eq!(
        format!("{:?}", Ssid::from_utf8("a\"b\n\u{e9}")),
        "Ssid(\"a\\\"b\\n\u{e9}\")"
    );
    assert_eq!(
        format!("{:?}", Ssid::from_bytes(vec![0xff, 0x01, 0xfe])),
        "Ssid([ff, 01, fe])"
    );
    assert_eq!(format!("{:?}", Ssid::from_bytes(vec![0xff])), "Ssid([ff])");
    assert_eq!(format!("{:?}", Ssid::from_bytes(vec![])), "Ssid(\"\")");
    assert_eq!(
        format!("{:?}", SecurityFlags::wpa2_psk() | SecurityFlags::owe()),
        "SecurityFlags(WPA2_PSK | OWE)"
    );
    assert_eq!(format!("{:?}", SecurityFlags::open()), "SecurityFlags(OPEN)");
    assert_eq!(format!("{:?}", SecurityFlags::empty()), "SecurityFlags(0x0)");
    assert_eq!(
        format!("{:#?}", Some(SecurityFlags::wep())),
        "Some(\n    SecurityFlags(\n        WEP,\n    ),\n)"
    );
    assert_eq!(
        format!("{:?}", Credentials::password("supersecret")),
        "Password(SecretBox<str>([REDACTED]))"
    );
    assert_eq!(format!("{:?}", Credentials::Open), "Open");
}

#[test]
fn a_rejected_length_is_reported() {
    match Ssid::try_from_bytes(vec![7; 33]) {
        Err(e) => {
            assert!(matches!(e, SsidError::InvalidLength(33)));
            assert_eq!(
                e.to_string(),
                "ssid length 33 is outside the valid range 1..=32"
            );
        }
        Ok(_) => panic!("too long"),
    }
}

#[test]
fn text_ssids_round_trip_beyond_ascii() {
    let s = Ssid::from_utf8("Caf\u{e9} \u{1f4f6}");
    assert_eq!(s.as_bytes(), "Caf\u{e9} \u{1f4f6}".as_bytes());
    assert_eq!(s.as_str(), Some("Caf\u{e9} \u{1f4f6}"));
}

#[test]
fn ssids_are_the_same_by_their_bytes() {
    assert!(Ssid::from_utf8("ab").same_as(&Ssid::from_bytes(vec![0x61, 0x62])));
    assert!(!Ssid::from_utf8("ab").same_as(&Ssid::from_utf8("aB")));
    assert!(Ssid::from_utf8("ab").clone().same_as(&Ssid::from_utf8("ab")));
}

#[test]
fn round_trips_string() {
    let id = AdapterId::new("wlan0");
    assert_eq!(id.as_str(), "wlan0");
    assert_eq!(id.to_string(), "wlan0");
}

#[test]
fn default_timeout_is_none_meaning_platform_default() {
    let opts = ConnectOptions::default();
    assert_eq!(opts.timeout, None);
}

#[test]
fn effective_timeout_falls_back_when_unset() {
    let opts = ConnectOptions::default();
    assert_eq!(opts.effective_timeout(), Duration::from_secs(30));
}

#[test]
fn effective_timeout_uses_explicit_value() {
    let opts = ConnectOptions {
        timeout: Some(Duration::from_secs(5)),
    };
    assert_eq!(opts.effective_timeout(), Duration::from_secs(5));
}

#[test]
fn open_variant_has_no_secret() {
    let c = Credentials::Open;
    assert!(matches!(c, Credentials::Open));
}

#[test]
fn password_holds_secret() {
    let c = Credentials::password("hunter2");
    match &c {
        Credentials::Password(s) => assert_eq!(s.expose_secret(), "hunter2"),
        Credentials::Open => panic!("wrong variant"),
    }
}

#[test]
fn debug_does_not_leak_password() {
    let c = Credentials::password("supersecret");
    let formatted = format!("{c:?}");
    assert!(!formatted.contains("supersecret"));
}

#[test]
fn passphrase_is_there_only_for_a_password() {
    assert_eq!(Credentials::password("pw").passphrase(), Some("pw"));
    assert_eq!(Credentials::password("pw").clone().passphrase(), Some("pw"));
    assert_eq!(Credentials::Open.passphrase(), None);
}

#[test]
fn security_flags_set_and_union() {
    let s = SecurityFlags::wpa2_psk() | SecurityFlags::wpa3_sae();
    assert!(s.contains(SecurityFlags::wpa2_psk()));
    assert!(s.contains(SecurityFlags::wpa3_sae()));
    assert!(!s.contains(SecurityFlags::open()));
}

#[test]
fn security_flags_default_is_empty() {
    let s = SecurityFlags::empty();
    assert!(s.is_empty());
}

#[test]
fn security_flags_have_their_bits() {
    assert_eq!(SecurityFlags::empty().bits(), 0);
    assert_eq!(SecurityFlags::open().bits(), 1);
    assert_eq!(SecurityFlags::wep().bits(), 2);
    assert_eq!(SecurityFlags::wpa_psk().bits(), 4);
    assert_eq!(SecurityFlags::wpa2_psk().bits(), 8);
    assert_eq!(SecurityFlags::wpa3_sae().bits(), 16);
    assert_eq!(SecurityFlags::wpa2_enterprise().bits(), 32);
    assert_eq!(SecurityFlags::wpa3_enterprise().bits(), 64);
    assert_eq!(SecurityFlags::owe().bits(), 128);
    let mut s = SecurityFlags::wep().union(SecurityFlags::owe());
    assert_eq!(s.bits(), 130);
    s.remove(SecurityFlags::wep());
    assert_eq!(s, SecurityFlags::owe());
    s.insert(SecurityFlags::open());
    assert_eq!(s.bits(), 129);
}

#[test]
fn union_of_flags_is_commutative_and_idempotent() {
    let a = SecurityFlags::wpa2_psk() | SecurityFlags::owe();
    let b = SecurityFlags::wep() | SecurityFlags::owe();
    assert_eq!(a | b, b | a);
    assert_eq!(a | a, a);
    assert!((a | b).contains(a) && (a | b).contains(b));
    assert_ne!(a.bits(), b.bits());
}

#[test]
fn band_variants_are_distinct() {
    assert_ne!(Band::Ghz2_4, Band::Ghz5);
    assert_ne!(Band::Ghz5, Band::Ghz6);
}

#[test]
fn scan_options_default_is_no_force_rescan() {
    let opts = ScanOptions::default();
    assert!(!opts.force_rescan);
}

fn make_network(frequency_mhz: Option<u32>) -> VisibleNetwork {
    VisibleNetwork {
        ssid: Ssid::from_utf8("x"),
        signal_quality: 0,
        security: SecurityFlags::empty(),
        bss_count: 1,
        is_connected: false,
        has_saved_profile: false,
        rssi_dbm: None,
        bssid: None,
        frequency_mhz,
    }
}

#[test]
fn band_is_none_when_frequency_is_none() {
    assert_eq!(make_network(None).band(), None);
}

#[test]
fn band_2_4_ghz() {
    assert_eq!(make_network(Some(2412)).band(), Some(Band::Ghz2_4));
    assert_eq!(make_network(Some(2484)).band(), Some(Band::Ghz2_4));
}

#[test]
fn band_5_ghz() {
    assert_eq!(make_network(Some(5180)).band(), Some(Band::Ghz5));
    assert_eq!(make_network(Some(5825)).band(), Some(Band::Ghz5));
}

#[test]
fn band_6_ghz() {
    assert_eq!(make_network(Some(5955)).band(), Some(Band::Ghz6));
    assert_eq!(make_network(Some(7115)).band(), Some(Band::Ghz6));
}

#[test]
fn band_out_of_range_yields_none() {
    assert_eq!(make_network(Some(1000)).band(), None);
    assert_eq!(make_network(Some(8000)).band(), None);
}

#[test]
fn ssid_display_utf8_prints_verbatim() {
    let s = Ssid::from_utf8("home");
    assert_eq!(s.to_string(), "home");
}

#[test]
fn ssid_display_non_utf8_uses_hex_wrapper() {
    let s = Ssid::from_bytes(vec![0xff, 0x01, 0xfe]);
    assert_eq!(s.to_string(), "<hex:ff01fe>");
}

#[test]
fn ssid_display_empty_uses_hex_wrapper() {
    let s = Ssid::from_bytes(vec![]);
    assert_eq!(s.to_string(), "");
}

#[test]
fn printed_forms_collide_only_with_their_own_text() {
    let octets = Ssid::from_bytes(vec![0xff]);
    let text = Ssid::from_utf8("<hex:ff>");
    assert_eq!(octets.to_string(), text.to_string());
    assert!(Ssid::from_utf8("<hex:fe>").to_string() != octets.to_string());
    assert!(Ssid::from_utf8("<hex:FF>").to_string() != octets.to_string());
}
