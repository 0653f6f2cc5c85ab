//! `connect` and `connect_with_stored_credentials`.

use std::time::Duration;

use vstd::prelude::*;

use crate::duration::{duration_nanos, fraction};
use crate::error::{failure, Error, ErrorView};
use crate::platform::linux::scan::{
    find_profile, profile_verdicts, profiles_are_found_by_their_octets, SavedProfile,
};
use crate::preflight::ScanOutcome;
use crate::search::{search, Found, FoundView};
use crate::types::{ssid_display, time_limit, ConnectOptions, Ssid};

verus! {

broadcast use vstd::string::group_string_axioms;

/// How much of the time limit the pre-flight scan may take: a quarter.
pub fn preflight_budget(options: &ConnectOptions) -> (r: Duration)
    ensures
        duration_nanos(r) == time_limit(*options) / 4,
{
    fraction(options.effective_timeout(), 4)
}

/// The error for an activation that was refused, in view of the pre-flight scan:
/// an SSID that nobody heard is out of range.
pub fn activation_error(preflight: ScanOutcome, refused: Error) -> (r: Error)
    ensures
        r@ == (if preflight == ScanOutcome::NotVisible {
            ErrorView::SsidNotInRange
        } else {
            refused@
        }),
{
    if preflight == ScanOutcome::NotVisible {
        Error::SsidNotInRange
    } else {
        refused
    }
}

/// The result of a connect after waiting for the activation, in view of the
/// pre-flight scan: a failed authentication on an SSID that nobody heard means
/// that it is out of range.
pub fn connect_with_credentials(preflight: ScanOutcome, waited: Result<(), Error>) -> (r: Result<
    (),
    Error,
>)
    ensures
        failure(r) == (if preflight == ScanOutcome::NotVisible && failure(waited) == Some(
            ErrorView::AuthenticationFailed,
        ) {
            Some(ErrorView::SsidNotInRange)
        } else {
            failure(waited)
        }),
{
    match waited {
        Ok(()) => Ok(()),
        Err(e) => {
            if preflight == ScanOutcome::NotVisible {
                if let Error::AuthenticationFailed = e {
                    return Err(Error::SsidNotInRange);
                }
            }
            Err(e)
        },
    }
}

/// Which of the saved profiles to activate: the first with that SSID. Any saved
/// connection counts (including ones the user added through the GUI).
pub fn connect_with_stored(profiles: Vec<SavedProfile>, ssid: &Ssid) -> (r: Result<usize, Error>)
    ensures
        match search(profile_verdicts(profiles@, ssid@)) {
            FoundView::At(i) => r == Ok::<usize, Error>(i as usize) && 0 <= i < profiles@.len(),
            FoundView::Nowhere => failure(r) == Some(
                ErrorView::NoStoredCredentials(ssid_display(ssid@)),
            ),
            FoundView::Failed(e) => failure(r) == Some(e),
        },
        r matches Ok(i) ==> i < profiles@.len() && profiles@[i as int] is Read
            && profiles@[i as int]->ssid is Some && profiles@[i as int]->ssid->0@ == ssid@,
{
    proof {
        profiles_are_found_by_their_octets(profiles@, ssid@);
    }
    match find_profile(profiles, ssid) {
        Found::At(i) => Ok(i),
        Found::Nowhere => Err(Error::NoStoredCredentials(ssid.to_string())),
        Found::Failed(e) => Err(e),
    }
}

} // verus!
