//! Messages of errors, and connections.

use std::sync::atomic::{AtomicUsize, Ordering};
use std::sync::Arc;
use std::time::Duration;

use uniwifi::connection::WifiConnection;
use uniwifi::error::OsError;
use uniwifi::preflight::ScanError;
use uniwifi::Error;

#[test]
fn messages() {
    assert_eq!(Error::NoAdapter.to_string(), "no wifi adapter found");
    assert_eq!(
        Error::AdapterNotFound("wlan0".to_string()).to_string(),
        "adapter wlan0 not found"
    );
    assert_eq!(
        Error::SsidNotInRange.to_string(),
        "ssid not in range or not visible"
    );
    assert_eq!(
        Error::AuthenticationFailed.to_string(),
        "authentication failed (wrong password or unsupported security)"
    );
    assert_eq!(
        Error::NoStoredCredentials("Net".to_string()).to_string(),
        "no stored credentials for ssid Net"
    );
    assert_eq!(
        Error::Timeout(Duration::from_millis(1500)).to_string(),
        "operation timed out after 1.5s"
    );
    assert_eq!(
        Error::PermissionDenied("polkit").to_string(),
        "permission denied: polkit"
    );
    assert_eq!(
        Error::UserCancelled.to_string(),
        "operation cancelled by user"
    );
    assert_eq!(
        Error::Unsupported("scan").to_string(),
        "operation not supported on this platform: scan"
    );
    let os = Error::Os(Box::new(OsError::Message("boom".to_string())));
    assert_eq!(os.to_string(), "internal os error: boom");
    let nested = Error::Os(Box::new(OsError::Library(Error::NoAdapter)));
    assert_eq!(
        nested.to_string(),
        "internal os error: no wifi adapter found"
    );
}

#[test]
fn scan_error_messages() {
    assert_eq!(
        ScanError::PermissionDenied.to_string(),
        "permission denied for scanning"
    );
    assert_eq!(
        ScanError::Unsupported.to_string(),
        "scan unsupported on this platform"
    );
    let os = ScanError::Os(Box::new(OsError::Message("boom".to_string())));
    assert_eq!(os.to_string(), "os error during scan: boom");
}

struct Counted(Arc<AtomicUsize>);

impl Drop for Counted {
    fn drop(&mut self) {
        self.0.fetch_add(1, Ordering::SeqCst);
    }
}

#[test]
fn a_connection_holds_its_guard_until_it_is_dropped() {
    let drops = Arc::new(AtomicUsize::new(0));
    let connection = WifiConnection::new(Counted(Arc::clone(&drops)));
    assert_eq!(drops.load(Ordering::SeqCst), 0);
    drop(connection);
    assert_eq!(drops.load(Ordering::SeqCst), 1);
    drop(WifiConnection::inert());
    assert_eq!(drops.load(Ordering::SeqCst), 1);
    let boxed: WifiConnection = WifiConnection::new(Box::new(Counted(Arc::clone(&drops))));
    assert_eq!(drops.load(Ordering::SeqCst), 1);
    assert_eq!(format!("{boxed:?}"), "WifiConnection");
    drop(boxed);
    assert_eq!(drops.load(Ordering::SeqCst), 2);
}
