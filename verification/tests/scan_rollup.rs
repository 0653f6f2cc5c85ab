//! Rolling observations up into networks.

use uniwifi::scan_rollup::{band_from_mhz, quality_from_dbm, rollup, RawBss, ScanContext};
use uniwifi::types::SsidSet;
use uniwifi::{Band, SecurityFlags, Ssid};

#[test]
fn quality_clamps_low() {
    assert_eq!(quality_from_dbm(-101), 0);
    assert_eq!(quality_from_dbm(-200), 0);
}

#[test]
fn quality_at_minus_100_is_zero() {
    assert_eq!(quality_from_dbm(-100), 0);
}

#[test]
fn quality_at_minus_50_is_one_hundred() {
    assert_eq!(quality_from_dbm(-50), 100);
}

#[test]
fn quality_clamps_high() {
    assert_eq!(quality_from_dbm(-30), 100);
    assert_eq!(quality_from_dbm(0), 100);
}

#[test]
fn quality_midpoint() {
    assert_eq!(quality_from_dbm(-75), 50);
}

#[test]
fn quality_at_the_ends_of_its_type() {
    assert_eq!(quality_from_dbm(i16::MIN), 0);
    assert_eq!(quality_from_dbm(i16::MAX), 100);
    assert_eq!(quality_from_dbm(-99), 2);
}

#[test]
fn band_2_4() {
    assert_eq!(band_from_mhz(2412), Some(Band::Ghz2_4));
    assert_eq!(band_from_mhz(2484), Some(Band::Ghz2_4));
}

#[test]
fn band_5() {
    assert_eq!(band_from_mhz(5180), Some(Band::Ghz5));
}

#[test]
fn band_6() {
    assert_eq!(band_from_mhz(5955), Some(Band::Ghz6));
    assert_eq!(band_from_mhz(7115), Some(Band::Ghz6));
}

#[test]
fn band_out_of_range() {
    assert_eq!(band_from_mhz(1000), None);
    assert_eq!(band_from_mhz(8000), None);
}

fn raw(ssid: &str, quality: u8, security: SecurityFlags, rssi: Option<i16>) -> RawBss {
    RawBss {
        ssid: Ssid::from_utf8(ssid),
        security,
        rssi_dbm: rssi,
        quality,
        bssid: None,
        frequency_mhz: None,
    }
}

fn empty_ctx() -> ScanContext {
    ScanContext {
        connected_ssid: None,
        saved_ssids: SsidSet::new(),
    }
}

#[test]
fn rollup_groups_by_ssid_and_keeps_strongest() {
    let bsses = vec![
        raw("home", 60, SecurityFlags::wpa2_psk(), Some(-70)),
        raw("home", 80, SecurityFlags::wpa2_psk(), Some(-60)),
        raw("home", 50, SecurityFlags::wpa2_psk(), Some(-75)),
    ];
    let out = rollup(bsses, &empty_ctx());
    assert_eq!(out.len(), 1);
    assert_eq!(out[0].ssid.as_str(), Some("home"));
    assert_eq!(out[0].signal_quality, 80);
    assert_eq!(out[0].rssi_dbm, Some(-60));
    assert_eq!(out[0].bss_count, 3);
}

#[test]
fn rollup_unions_security_flags() {
    let bsses = vec![
        raw("transition", 70, SecurityFlags::wpa2_psk(), None),
        raw("transition", 70, SecurityFlags::wpa3_sae(), None),
    ];
    let out = rollup(bsses, &empty_ctx());
    assert_eq!(out.len(), 1);
    assert_eq!(
        out[0].security,
        SecurityFlags::wpa2_psk() | SecurityFlags::wpa3_sae()
    );
}

#[test]
fn rollup_filters_empty_ssids() {
    let bsses = vec![
        RawBss {
            ssid: Ssid::from_bytes(vec![]),
            security: SecurityFlags::open(),
            rssi_dbm: None,
            quality: 100,
            bssid: None,
            frequency_mhz: None,
        },
        raw("real", 50, SecurityFlags::wpa2_psk(), None),
    ];
    let out = rollup(bsses, &empty_ctx());
    assert_eq!(out.len(), 1);
    assert_eq!(out[0].ssid.as_str(), Some("real"));
}

#[test]
fn rollup_returns_empty_for_all_empty_input() {
    let out = rollup(vec![], &empty_ctx());
    assert!(out.is_empty());
}

#[test]
fn rollup_sort_is_quality_desc_then_ssid_asc() {
    let bsses = vec![
        raw("b_low", 30, SecurityFlags::open(), None),
        raw("a_high", 80, SecurityFlags::open(), None),
        raw("a_low", 30, SecurityFlags::open(), None),
        raw("c_high", 80, SecurityFlags::open(), None),
    ];
    let out = rollup(bsses, &empty_ctx());
    let names: Vec<_> = out.iter().map(|n| n.ssid.as_str().unwrap()).collect();
    assert_eq!(names, vec!["a_high", "c_high", "a_low", "b_low"]);
}

#[test]
fn rollup_stamps_is_connected() {
    let bsses = vec![
        raw("home", 50, SecurityFlags::wpa2_psk(), None),
        raw("away", 50, SecurityFlags::wpa2_psk(), None),
    ];
    let ctx = ScanContext {
        connected_ssid: Some(Ssid::from_utf8("home")),
        saved_ssids: SsidSet::new(),
    };
    let out = rollup(bsses, &ctx);
    let home = out
        .iter()
        .find(|n| n.ssid.as_str() == Some("home"))
        .unwrap();
    let away = out
        .iter()
        .find(|n| n.ssid.as_str() == Some("away"))
        .unwrap();
    assert!(home.is_connected);
    assert!(!away.is_connected);
}

#[test]
fn rollup_stamps_has_saved_profile() {
    let bsses = vec![
        raw("saved", 50, SecurityFlags::wpa2_psk(), None),
        raw("new", 50, SecurityFlags::wpa2_psk(), None),
    ];
    let mut saved = SsidSet::new();
    saved.insert(Ssid::from_utf8("saved"));
    let ctx = ScanContext {
        connected_ssid: None,
        saved_ssids: saved,
    };
    let out = rollup(bsses, &ctx);
    let s = out
        .iter()
        .find(|n| n.ssid.as_str() == Some("saved"))
        .unwrap();
    let n = out.iter().find(|n| n.ssid.as_str() == Some("new")).unwrap();
    assert!(s.has_saved_profile);
    assert!(!n.has_saved_profile);
}

#[test]
fn rollup_equal_quality_prefers_known_rssi() {
    // At identical quality, a BSS reporting Some(rssi) should win over
    // a BSS reporting None so the resulting VisibleNetwork carries the
    // more informative metadata.
    let known_bssid = [0x11, 0x22, 0x33, 0x44, 0x55, 0x66];
    let bsses = vec![
        RawBss {
            ssid: Ssid::from_utf8("net"),
            security: SecurityFlags::wpa2_psk(),
            rssi_dbm: None,
            quality: 50,
            bssid: None,
            frequency_mhz: None,
        },
        RawBss {
            ssid: Ssid::from_utf8("net"),
            security: SecurityFlags::wpa2_psk(),
            rssi_dbm: Some(-65),
            quality: 50,
            bssid: Some(known_bssid),
            frequency_mhz: Some(2412),
        },
    ];
    let out = rollup(bsses, &empty_ctx());
    assert_eq!(out.len(), 1);
    assert_eq!(out[0].rssi_dbm, Some(-65));
    assert_eq!(out[0].bssid, Some(known_bssid));
    assert_eq!(out[0].frequency_mhz, Some(2412));
}

#[test]
fn rollup_strongest_preserves_bssid_freq() {
    let strong_bssid = [0x11, 0x22, 0x33, 0x44, 0x55, 0x66];
    let weak_bssid = [0xaa, 0xbb, 0xcc, 0xdd, 0xee, 0xff];
    let bsses = vec![
        RawBss {
            ssid: Ssid::from_utf8("net"),
            security: SecurityFlags::wpa2_psk(),
            rssi_dbm: Some(-80),
            quality: 40,
            bssid: Some(weak_bssid),
            frequency_mhz: Some(2412),
        },
        RawBss {
            ssid: Ssid::from_utf8("net"),
            security: SecurityFlags::wpa2_psk(),
            rssi_dbm: Some(-50),
            quality: 100,
            bssid: Some(strong_bssid),
            frequency_mhz: Some(5180),
        },
    ];
    let out = rollup(bsses, &empty_ctx());
    assert_eq!(out.len(), 1);
    assert_eq!(out[0].bssid, Some(strong_bssid));
    assert_eq!(out[0].frequency_mhz, Some(5180));
}

#[test]
fn every_observation_is_counted_once() {
    let bsses = vec![
        raw("a", 10, SecurityFlags::open(), None),
        raw("b", 20, SecurityFlags::wep(), Some(-90)),
        raw("a", 30, SecurityFlags::open(), Some(-85)),
        raw("b", 20, SecurityFlags::wep(), Some(-90)),
        raw("a", 5, SecurityFlags::owe(), None),
    ];
    let out = rollup(bsses, &empty_ctx());
    let counts: Vec<(&str, u32)> = out
        .iter()
        .map(|n| (n.ssid.as_str().unwrap(), n.bss_count))
        .collect();
    assert_eq!(counts, vec![("a", 3), ("b", 2)]);
}

#[test]
fn sort_orders_ssids_by_bytes_and_prefixes_first() {
    let bsses = vec![
        raw("ab", 30, SecurityFlags::open(), None),
        raw("\u{e9}", 30, SecurityFlags::open(), None),
        raw("a", 30, SecurityFlags::open(), None),
        raw("B", 30, SecurityFlags::open(), None),
    ];
    let out = rollup(bsses, &empty_ctx());
    let names: Vec<_> = out.iter().map(|n| n.ssid.as_str().unwrap()).collect();
    assert_eq!(names, vec!["B", "a", "ab", "\u{e9}"]);
}

#[test]
fn the_order_of_observations_matters_for_details_only() {
    let build = |order: [usize; 4]| {
        let mut all = vec![
            raw("a", 40, SecurityFlags::open(), Some(-80)),
            raw("a", 40, SecurityFlags::owe(), Some(-80)),
            raw("a", 40, SecurityFlags::wep(), None),
            raw("b", 40, SecurityFlags::wpa2_psk(), None),
        ];
        all[0].bssid = Some([1; 6]);
        all[1].bssid = Some([2; 6]);
        let mut slots: Vec<Option<RawBss>> = all.into_iter().map(Some).collect();
        let bsses = order.iter().map(|&i| slots[i].take().unwrap()).collect();
        rollup(bsses, &empty_ctx())
    };
    let x = build([0, 1, 2, 3]);
    let y = build([3, 2, 1, 0]);
    assert_eq!(x[0].bssid, Some([1; 6]));
    assert_eq!(y[0].bssid, Some([2; 6]));
    assert_eq!(x.len(), y.len());
    for (a, b) in x.iter().zip(&y) {
        assert!(a.ssid == b.ssid);
        assert_eq!(a.signal_quality, b.signal_quality);
        assert_eq!(a.rssi_dbm, b.rssi_dbm);
        assert_eq!(a.security, b.security);
        assert_eq!(a.bss_count, b.bss_count);
    }
}
