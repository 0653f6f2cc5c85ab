//! Connect / disconnect decisions.

use std::time::Duration;

use vstd::prelude::*;
use vstd::utf8::*;

use crate::duration::{duration_nanos, fraction, seconds, shorter};
use crate::error::{failure, os_message, Error, ErrorView, NsErrorWrapper, OsErrorView};
use crate::preflight::ScanOutcome;
use crate::types::{ssid_display, Ssid};

verus! {

broadcast use vstd::string::group_string_axioms;

/// How much of the time limit the pre-flight scan may take: half of it, at most
/// five seconds.
pub fn preflight_budget(timeout: Duration) -> (r: Duration)
    ensures
        duration_nanos(r) == (if duration_nanos(timeout) / 2 < 5_000_000_000 {
            duration_nanos(timeout) / 2
        } else {
            5_000_000_000
        }),
{
    shorter(fraction(timeout, 2), seconds(5))
}

/// Whether a connect goes on after the pre-flight scan: not to an SSID that
/// nobody heard.
///
/// # Errors
///
/// Returns `Error::SsidNotInRange` if the scan did not hear it.
pub fn after_preflight(outcome: ScanOutcome) -> (r: Result<(), Error>)
    ensures
        failure(r) == (if outcome == ScanOutcome::NotVisible {
            Some(ErrorView::SsidNotInRange)
        } else {
            None
        }),
{
    if outcome == ScanOutcome::NotVisible {
        return Err(Error::SsidNotInRange);
    }
    Ok(())
}

/// The name to scan for before an associate.
///
/// # Errors
///
/// Returns `Error::Unsupported(_)` if the SSID is not valid UTF-8.
pub fn scan_name(ssid: &Ssid) -> (r: Result<&str, Error>)
    ensures
        failure(r) == (if valid_utf8(ssid@) {
            None
        } else {
            Some(
                ErrorView::Unsupported(
                    "macos: associate currently requires UTF-8 SSIDs (non-UTF-8 not yet supported)"@,
                ),
            )
        }),
        r matches Ok(s) ==> s@ == decode_utf8(ssid@),
{
    match ssid.as_str() {
        Some(s) => Ok(s),
        None => Err(
            Error::Unsupported(
                "macos: associate currently requires UTF-8 SSIDs (non-UTF-8 not yet supported)",
            ),
        ),
    }
}

/// Which network of the scan to associate to: the first. (All of them have the
/// SSID that was asked for.)
///
/// # Errors
///
/// Returns `Error::SsidNotInRange` if the scan found none, and `Error::Os(_)` if
/// it failed.
pub fn connect_blocking<N>(scan: Result<Vec<N>, NsErrorWrapper>) -> (r: Result<N, Error>)
    ensures
        match scan {
            Err(e) => failure(r) == Some(ErrorView::Os(OsErrorView::Message(e.description@))),
            Ok(networks) => if networks@.len() == 0 {
                failure(r) == Some(ErrorView::SsidNotInRange)
            } else {
                r == Ok::<N, Error>(networks@[0])
            },
        },
{
    match scan {
        Err(e) => Err(os_message(e.description.as_str())),
        Ok(networks) => {
            let mut networks = networks;
            if networks.len() == 0 {
                return Err(Error::SsidNotInRange);
            }
            Ok(networks.swap_remove(0))
        },
    }
}

/// The result of a connect; `finished` is nothing when the worker was still
/// running when its time was over.
///
/// # Errors
///
/// Returns `Error::Timeout(timeout)` in that case.
pub fn connect(finished: Option<Result<(), Error>>, timeout: Duration) -> (r: Result<(), Error>)
    ensures
        failure(r) == (match finished {
            Some(result) => failure(result),
            None => Some(ErrorView::Timeout(timeout)),
        }),
{
    match finished {
        Some(result) => result,
        None => Err(Error::Timeout(timeout)),
    }
}

/// What follows an associate without a password.
#[derive(Debug)]
pub enum StoredStep {
    /// That is the result.
    Done(Result<(), Error>),
    /// Look into the keychain.
    ProbeKeychain,
}

/// What follows a connect with stored credentials: `CoreWLAN` reports the same
/// failure for a wrong password and for a missing one.
pub fn connect_with_stored(result: Result<(), Error>) -> (r: StoredStep)
    ensures
        match r {
            StoredStep::Done(done) => done == result && failure(result) != Some(
                ErrorView::AuthenticationFailed,
            ),
            StoredStep::ProbeKeychain => failure(result) == Some(ErrorView::AuthenticationFailed),
        },
{
    match result {
        Err(Error::AuthenticationFailed) => StoredStep::ProbeKeychain,
        other => StoredStep::Done(other),
    }
}

/// The error of a failed authentication with stored credentials, by whether the
/// keychain has an entry.
pub fn stored_failure(entry_exists: bool, ssid: &Ssid) -> (r: Error)
    ensures
        r@ == (if entry_exists {
            ErrorView::AuthenticationFailed
        } else {
            ErrorView::NoStoredCredentials(ssid_display(ssid@))
        }),
{
    if entry_exists {
        Error::AuthenticationFailed
    } else {
        Error::NoStoredCredentials(ssid.to_string())
    }
}

/// Whether to disassociate: calling `disconnect` when not connected to `ssid` is
/// a no-op success.
pub fn disconnect_blocking(current: Option<&Ssid>, ssid: &Ssid) -> (r: bool)
    ensures
        r == (match current {
            Some(c) => c@ == ssid@,
            None => false,
        }),
{
    match current {
        Some(c) => c.same_as(ssid),
        None => false,
    }
}

} // verus!
