//! The pre-flight scan loop, on a clock that only advances by sleeping.

use std::time::Duration;

use uniwifi::error::OsError;
use uniwifi::preflight::{
    after_scan, scan_error_from, start, wait_budget, ScanError, ScanOutcome, Step,
};
use uniwifi::{BoxedOsError, ConnectOptions, Error, Ssid};

/// Runs the loop: each scan takes the next scripted result, nothing heard once
/// they are used up.
fn wait_until_ssid_visible(
    scripted: Vec<Result<Vec<Ssid>, ScanError>>,
    target: &Ssid,
    timeout: Duration,
) -> (ScanOutcome, usize) {
    let mut scripted = scripted.into_iter();
    let mut remaining = timeout;
    let mut scans = 0;
    let mut step = start(&timeout);
    loop {
        step = match step {
            Step::Scan => {
                scans += 1;
                let result = scripted.next().unwrap_or(Ok(vec![]));
                after_scan(&result, target, remaining)
            }
            Step::Sleep(pause) => {
                assert!(pause <= remaining);
                remaining -= pause;
                Step::Scan
            }
            Step::Done(outcome) => return (outcome, scans),
        };
    }
}

fn home() -> Ssid {
    Ssid::from_utf8("home")
}

#[test]
fn returns_visible_when_ssid_in_first_scan() {
    let (res, scans) =
        wait_until_ssid_visible(vec![Ok(vec![home()])], &home(), Duration::from_millis(500));
    assert_eq!(res, ScanOutcome::Visible);
    assert_eq!(scans, 1);
}

#[test]
fn returns_visible_when_ssid_in_later_scan() {
    let (res, scans) = wait_until_ssid_visible(
        vec![Ok(vec![]), Ok(vec![home()])],
        &home(),
        Duration::from_millis(500),
    );
    assert_eq!(res, ScanOutcome::Visible);
    assert_eq!(scans, 2);
}

#[test]
fn returns_not_visible_after_timeout() {
    let scripted = (0..10).map(|_| Ok(vec![])).collect();
    let (res, _) = wait_until_ssid_visible(scripted, &home(), Duration::from_millis(120));
    assert_eq!(res, ScanOutcome::NotVisible);
}

#[test]
fn returns_skipped_when_provider_errors() {
    let (res, scans) = wait_until_ssid_visible(
        vec![Err(ScanError::PermissionDenied)],
        &home(),
        Duration::from_millis(120),
    );
    assert_eq!(res, ScanOutcome::Skipped);
    assert_eq!(scans, 1);
}

#[test]
fn returns_not_visible_when_timeout_is_zero() {
    let (res, scans) = wait_until_ssid_visible(vec![Ok(vec![home()])], &home(), Duration::ZERO);
    assert_eq!(res, ScanOutcome::NotVisible);
    assert_eq!(scans, 0);
}

#[test]
fn sleeps_no_longer_than_what_is_left() {
    let nothing = Ok(vec![Ssid::from_utf8("other")]);
    match after_scan(&nothing, &home(), Duration::from_millis(7)) {
        Step::Sleep(pause) => assert_eq!(pause, Duration::from_millis(7)),
        other => panic!("unexpected: {other:?}"),
    }
    assert!(matches!(
        after_scan(&nothing, &home(), Duration::ZERO),
        Step::Done(ScanOutcome::NotVisible)
    ));
}

#[test]
fn scan_error_from_permission_denied() {
    let e = Error::PermissionDenied("Location");
    assert!(matches!(scan_error_from(e), ScanError::PermissionDenied));
}

#[test]
fn scan_error_from_unsupported() {
    let e = Error::Unsupported("nope");
    assert!(matches!(scan_error_from(e), ScanError::Unsupported));
}

#[test]
fn scan_error_from_os_passes_through() {
    let inner: BoxedOsError = Box::new(OsError::Message("boom".to_string()));
    let e = Error::Os(inner);
    let out = scan_error_from(e);
    assert!(matches!(out, ScanError::Os(_)));
    assert!(out.to_string().ends_with("boom"));
}

#[test]
fn scan_error_from_other_variants_become_os() {
    let e = Error::AdapterNotFound("wlan0".to_string());
    assert!(matches!(scan_error_from(e), ScanError::Os(_)));
}

#[test]
fn permission_denied_translates_to_permission_denied() {
    let e = Error::PermissionDenied("ACCESS_FINE_LOCATION or NEARBY_WIFI_DEVICES");
    assert!(matches!(scan_error_from(e), ScanError::PermissionDenied));
}

#[test]
fn the_time_limit_covers_the_pre_flight() {
    let default = ConnectOptions::default();
    assert_eq!(
        wait_budget(&default, Duration::from_millis(7_500)),
        Duration::from_millis(22_500)
    );
    let short = ConnectOptions {
        timeout: Some(Duration::from_secs(2)),
    };
    assert_eq!(wait_budget(&short, Duration::ZERO), Duration::from_secs(2));
    assert_eq!(wait_budget(&short, Duration::from_secs(2)), Duration::ZERO);
    assert_eq!(wait_budget(&short, Duration::from_secs(3)), Duration::ZERO);
}
