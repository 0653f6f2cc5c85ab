//! `connect` and `connect_with_stored_credentials`.

use std::time::Duration;

use vstd::prelude::*;
use vstd::utf8::*;

use crate::duration::{duration_nanos, seconds, shorter};
use crate::error::{failure, os_message, Error, ErrorView, OsErrorView};
use crate::platform::windows::notifications::{failed_connect, ConnectOutcome};
use crate::platform::windows::profile::{lookup_outcome, lookup_result, lookup_view};
use crate::platform::windows::profile_xml::{
    build_open_profile, build_wpa2_psk_profile, open_profile, profile_name, wpa2_psk_profile,
};
use crate::platform::windows::reason::reason_as_os_error;
use crate::platform::windows::util::{check_win32, win32_failure};
use crate::preflight::ScanOutcome;
use crate::text::utf8_lossy;
use crate::types::{ssid_display, time_limit, ConnectOptions, Credentials, Ssid};
use crate::utf16::{encode_utf16, utf16_units};

verus! {

broadcast use vstd::string::group_string_axioms;

/// Convert a Rust `&str` into a NUL-terminated UTF-16 vector.
pub fn to_wide(s: &str) -> (r: Vec<u16>)
    ensures
        r@ == encode_utf16(s@).push(0),
{
    let mut units = utf16_units(s);
    units.push(0);
    units
}

/// The result of installing a profile, from the status of `WlanSetProfile` and
/// the reason code that it handed out.
pub fn install_profile(code: u32, reason_code: u32) -> (r: Result<(), Error>)
    ensures
        failure(r) == (if code != 0 {
            Some(win32_failure("WlanSetProfile"@, code))
        } else if reason_code != 0 {
            Some(ErrorView::Os(OsErrorView::WlanReason(reason_code)))
        } else {
            None
        }),
{
    match check_win32("WlanSetProfile", code) {
        Ok(()) => {
            if reason_code != 0 {
                return Err(reason_as_os_error(reason_code));
            }
            Ok(())
        },
        Err(e) => Err(e),
    }
}

/// The result of issuing `WlanConnect`, from its status.
pub fn issue_connect(code: u32) -> (r: Result<(), Error>)
    ensures
        failure(r) == (if code == 0 {
            None
        } else {
            Some(win32_failure("WlanConnect"@, code))
        }),
{
    check_win32("WlanConnect", code)
}

/// The result of issuing `WlanDisconnect`, from its status.
pub fn issue_disconnect(code: u32) -> (r: Result<(), Error>)
    ensures
        failure(r) == (if code == 0 {
            None
        } else {
            Some(win32_failure("WlanDisconnect"@, code))
        }),
{
    check_win32("WlanDisconnect", code)
}

/// How long the pre-flight scan may take: the time limit, but no more than five
/// seconds.
pub fn preflight_budget(options: &ConnectOptions) -> (r: Duration)
    ensures
        duration_nanos(r) == if time_limit(*options) <= 5_000_000_000 {
            time_limit(*options)
        } else {
            5_000_000_000
        },
{
    shorter(options.effective_timeout(), seconds(5))
}

/// Whether a connect goes on after the pre-flight scan: not to an SSID that
/// nobody heard.
pub fn after_preflight(preflight: ScanOutcome) -> (r: Result<(), Error>)
    ensures
        failure(r) == (if preflight == ScanOutcome::NotVisible {
            Some(ErrorView::SsidNotInRange)
        } else {
            None
        }),
{
    if preflight == ScanOutcome::NotVisible {
        Err(Error::SsidNotInRange)
    } else {
        Ok(())
    }
}

/// The profile to install for a connect.
pub fn profile_for(ssid: &Ssid, credentials: &Credentials) -> (r: String)
    ensures
        r@ == (match credentials@ {
            None => open_profile(ssid@),
            Some(passphrase) => wpa2_psk_profile(ssid@, passphrase),
        }),
{
    match credentials.passphrase() {
        None => build_open_profile(ssid),
        Some(passphrase) => build_wpa2_psk_profile(ssid, passphrase),
    }
}

/// The name under which the profile of an SSID is installed, and found again.
pub fn profile_name_from_ssid(ssid: &Ssid) -> (r: String)
    ensures
        r@ == utf8_lossy(ssid@),
        valid_utf8(ssid@) ==> r@ == decode_utf8(ssid@),
{
    profile_name(ssid)
}

/// What the wait for the outcome of a connect came to.
#[derive(Debug)]
pub enum ConnectWait {
    Outcome(ConnectOutcome),
    ChannelClosed,
    Deadline,
}

/// The error of a wait, if it ended badly.
pub open spec fn wait_error(wait: ConnectWait, deadline: Duration) -> Option<ErrorView> {
    match wait {
        ConnectWait::Outcome(ConnectOutcome::Connected) => None,
        ConnectWait::Outcome(ConnectOutcome::Failed(code)) => Some(failed_connect(code)),
        ConnectWait::ChannelClosed => Some(
            ErrorView::Os(OsErrorView::Message("wlan notification channel closed unexpectedly"@)),
        ),
        ConnectWait::Deadline => Some(ErrorView::Timeout(deadline)),
    }
}

/// A connect succeeds only on hearing that it did.
pub proof fn only_a_connected_outcome_succeeds(wait: ConnectWait, deadline: Duration)
    ensures
        wait_error(wait, deadline) is None <==> wait == ConnectWait::Outcome(
            ConnectOutcome::Connected,
        ),
{
}

/// How a connect ends.
#[derive(Debug)]
pub struct ConnectEnd {
    /// Whether the attempt is given up with `WlanDisconnect` first.
    pub disconnect: bool,
    pub result: Result<(), Error>,
}

/// How a connect ends after the wait: an attempt whose deadline passed is given
/// up, and nothing else is.
pub fn run_connect(wait: ConnectWait, deadline: Duration) -> (r: ConnectEnd)
    ensures
        r.disconnect <==> wait is Deadline,
        failure(r.result) == wait_error(wait, deadline),
{
    match wait {
        ConnectWait::Outcome(outcome) => ConnectEnd {
            disconnect: false,
            result: outcome.into_result(),
        },
        ConnectWait::ChannelClosed => ConnectEnd {
            disconnect: false,
            result: Err(os_message("wlan notification channel closed unexpectedly")),
        },
        ConnectWait::Deadline => ConnectEnd {
            disconnect: true,
            result: Err(Error::Timeout(deadline)),
        },
    }
}

/// Whether a profile exists, from the status of `WlanGetProfile`.
///
/// # Errors
///
/// Returns `Error::Os(_)` for any Win32 status other than `ERROR_SUCCESS`
/// or `ERROR_NOT_FOUND`.
pub fn profile_exists(code: u32) -> (r: Result<bool, Error>)
    ensures
        lookup_view(r) == lookup_outcome("WlanGetProfile"@, code),
{
    lookup_result("WlanGetProfile", code)
}

/// Whether a connect with stored credentials goes on, from the status of
/// `WlanGetProfile`.
///
/// # Errors
///
/// - `Error::NoStoredCredentials(_)` if no profile is installed for `ssid`.
/// - `Error::Os(_)` if the lookup failed.
pub fn run_connect_stored(lookup: u32, ssid: &Ssid) -> (r: Result<(), Error>)
    ensures
        failure(r) == (match lookup_outcome("WlanGetProfile"@, lookup) {
            Ok(true) => None,
            Ok(false) => Some(ErrorView::NoStoredCredentials(ssid_display(ssid@))),
            Err(e) => Some(e),
        }),
{
    match profile_exists(lookup) {
        Ok(true) => Ok(()),
        Ok(false) => Err(Error::NoStoredCredentials(ssid.to_string())),
        Err(e) => Err(e),
    }
}

/// Each way in which a wait can end badly has its own error; a deadline is
/// reported as it was set.
pub proof fn waits_end_as_heard(code: u32, deadline: Duration)
    ensures
        wait_error(ConnectWait::Outcome(ConnectOutcome::Connected), deadline) is None,
        code == 0x48011 || code == 0x2800C || code == 0x38005 ==> wait_error(
            ConnectWait::Outcome(ConnectOutcome::Failed(code)),
            deadline,
        ) == Some(ErrorView::AuthenticationFailed),
        code == 0x28003 || code == 0x28002 || code == 0x2800D ==> wait_error(
            ConnectWait::Outcome(ConnectOutcome::Failed(code)),
            deadline,
        ) == Some(ErrorView::SsidNotInRange),
        wait_error(ConnectWait::Outcome(ConnectOutcome::Failed(code)), deadline) is Some,
        wait_error(ConnectWait::ChannelClosed, deadline) == Some(
            ErrorView::Os(OsErrorView::Message("wlan notification channel closed unexpectedly"@)),
        ),
        wait_error(ConnectWait::Deadline, deadline) == Some(ErrorView::Timeout(deadline)),
{
}

} // verus!
