//! `STATUS_NETWORK_SUGGESTIONS_*` (from `android.net.wifi.WifiManager`)
//! mapped to [`Error`] variants.
//!
//! Constant values per AOSP:
//! - 0..=5 from `android-29` (`WifiManager.java`).
//! - 6..=8 added in API 30 / 31 / 33 (admin restrictions, user
//!   approval, carrier suggestion limits).

use vstd::prelude::*;

use crate::error::{failure, os_message, Error, ErrorView, OsErrorView};
use crate::text::{push_signed, signed_text};

verus! {

broadcast use vstd::string::group_string_axioms;

pub const STATUS_NETWORK_SUGGESTIONS_SUCCESS: i32 = 0;
pub const STATUS_NETWORK_SUGGESTIONS_ERROR_INTERNAL: i32 = 1;
pub const STATUS_NETWORK_SUGGESTIONS_ERROR_APP_DISALLOWED: i32 = 2;
pub const STATUS_NETWORK_SUGGESTIONS_ERROR_ADD_DUPLICATE: i32 = 3;
pub const STATUS_NETWORK_SUGGESTIONS_ERROR_ADD_EXCEEDS_MAX_PER_APP: i32 = 4;
pub const STATUS_NETWORK_SUGGESTIONS_ERROR_REMOVE_INVALID: i32 = 5;
/// API 30+: app declared a network with privileged permissions it does
/// not actually hold.
pub const STATUS_NETWORK_SUGGESTIONS_ERROR_ADD_NOT_ALLOWED: i32 = 6;
/// API 30+: device-owner / profile-owner forbids suggestions.
pub const STATUS_NETWORK_SUGGESTIONS_ERROR_RESTRICTED_BY_ADMIN: i32 = 7;
/// API 31+: app is not allowed to add carrier suggestions.
pub const STATUS_NETWORK_SUGGESTIONS_ERROR_ADD_INVALID: i32 = 8;

/// An OS error with that message.
pub open spec fn status_error(text: Seq<char>) -> ErrorView {
    ErrorView::Os(OsErrorView::Message(text))
}

/// The error for a status of `addNetworkSuggestions`. A duplicate is as good as
/// success: the OS already has the suggestion.
pub open spec fn add_error(status: i32) -> Option<ErrorView> {
    if status == STATUS_NETWORK_SUGGESTIONS_SUCCESS || status
        == STATUS_NETWORK_SUGGESTIONS_ERROR_ADD_DUPLICATE {
        None
    } else if status == STATUS_NETWORK_SUGGESTIONS_ERROR_INTERNAL {
        Some(status_error("WifiManager add: STATUS_NETWORK_SUGGESTIONS_ERROR_INTERNAL"@))
    } else if status == STATUS_NETWORK_SUGGESTIONS_ERROR_APP_DISALLOWED || status
        == STATUS_NETWORK_SUGGESTIONS_ERROR_ADD_NOT_ALLOWED || status
        == STATUS_NETWORK_SUGGESTIONS_ERROR_RESTRICTED_BY_ADMIN {
        Some(ErrorView::PermissionDenied("network suggestions disallowed for this app"@))
    } else if status == STATUS_NETWORK_SUGGESTIONS_ERROR_ADD_EXCEEDS_MAX_PER_APP {
        Some(
            status_error(
                "WifiManager add: STATUS_NETWORK_SUGGESTIONS_ERROR_ADD_EXCEEDS_MAX_PER_APP"@,
            ),
        )
    } else if status == STATUS_NETWORK_SUGGESTIONS_ERROR_ADD_INVALID {
        Some(status_error("WifiManager add: STATUS_NETWORK_SUGGESTIONS_ERROR_ADD_INVALID"@))
    } else if status == STATUS_NETWORK_SUGGESTIONS_ERROR_REMOVE_INVALID {
        Some(
            status_error(
                "WifiManager add: unexpected STATUS_NETWORK_SUGGESTIONS_ERROR_REMOVE_INVALID"@,
            ),
        )
    } else {
        Some(status_error("WifiManager add: unknown status "@ + signed_text(status as int)))
    }
}

fn unknown_status(head: &str, status: i32) -> (r: Error)
    ensures
        r@ == status_error(head@ + signed_text(status as int)),
{
    let mut text = head.to_owned();
    push_signed(&mut text, status as i64);
    os_message(text.as_str())
}

/// Maps a status code returned by `WifiManager.addNetworkSuggestions`.
pub fn map_add_status(status: i32) -> (r: Result<(), Error>)
    ensures
        failure(r) == add_error(status),
{
    match status {
        STATUS_NETWORK_SUGGESTIONS_SUCCESS | STATUS_NETWORK_SUGGESTIONS_ERROR_ADD_DUPLICATE => Ok(
            (),
        ),
        STATUS_NETWORK_SUGGESTIONS_ERROR_INTERNAL => Err(
            os_message("WifiManager add: STATUS_NETWORK_SUGGESTIONS_ERROR_INTERNAL"),
        ),
        STATUS_NETWORK_SUGGESTIONS_ERROR_APP_DISALLOWED
        | STATUS_NETWORK_SUGGESTIONS_ERROR_ADD_NOT_ALLOWED
        | STATUS_NETWORK_SUGGESTIONS_ERROR_RESTRICTED_BY_ADMIN => Err(
            Error::PermissionDenied("network suggestions disallowed for this app"),
        ),
        STATUS_NETWORK_SUGGESTIONS_ERROR_ADD_EXCEEDS_MAX_PER_APP => Err(
            os_message("WifiManager add: STATUS_NETWORK_SUGGESTIONS_ERROR_ADD_EXCEEDS_MAX_PER_APP"),
        ),
        STATUS_NETWORK_SUGGESTIONS_ERROR_ADD_INVALID => Err(
            os_message("WifiManager add: STATUS_NETWORK_SUGGESTIONS_ERROR_ADD_INVALID"),
        ),
        STATUS_NETWORK_SUGGESTIONS_ERROR_REMOVE_INVALID => Err(
            os_message(
                "WifiManager add: unexpected STATUS_NETWORK_SUGGESTIONS_ERROR_REMOVE_INVALID",
            ),
        ),
        other => Err(unknown_status("WifiManager add: unknown status ", other)),
    }
}

/// Outcome of `WifiManager.removeNetworkSuggestions`.
///
/// `WasRemoved`: the OS removed something. `NotPresent`: the OS-side
/// suggestion was already gone (process restart, OS-side eviction, race
/// with another remove), which is *not* a failure but is observable as
/// "we did not actually remove anything" for `remove_profile`'s `bool`
/// return.
#[derive(Debug, PartialEq, Eq, Clone, Copy, Structural)]
pub enum RemoveOutcome {
    WasRemoved,
    NotPresent,
}

/// What a status of `removeNetworkSuggestions` means.
pub open spec fn remove_outcome(status: i32) -> Result<RemoveOutcome, ErrorView> {
    if status == STATUS_NETWORK_SUGGESTIONS_SUCCESS {
        Ok(RemoveOutcome::WasRemoved)
    } else if status == STATUS_NETWORK_SUGGESTIONS_ERROR_REMOVE_INVALID {
        Ok(RemoveOutcome::NotPresent)
    } else if status == STATUS_NETWORK_SUGGESTIONS_ERROR_INTERNAL {
        Err(status_error("WifiManager remove: STATUS_NETWORK_SUGGESTIONS_ERROR_INTERNAL"@))
    } else if status == STATUS_NETWORK_SUGGESTIONS_ERROR_APP_DISALLOWED || status
        == STATUS_NETWORK_SUGGESTIONS_ERROR_RESTRICTED_BY_ADMIN {
        Err(ErrorView::PermissionDenied("network suggestions disallowed for this app"@))
    } else {
        Err(status_error("WifiManager remove: unknown status "@ + signed_text(status as int)))
    }
}

/// Maps a status code returned by `WifiManager.removeNetworkSuggestions`.
pub fn map_remove_status(status: i32) -> (r: Result<RemoveOutcome, Error>)
    ensures
        match remove_outcome(status) {
            Ok(outcome) => r == Ok::<RemoveOutcome, Error>(outcome),
            Err(e) => failure(r) == Some(e),
        },
{
    match status {
        STATUS_NETWORK_SUGGESTIONS_SUCCESS => Ok(RemoveOutcome::WasRemoved),
        STATUS_NETWORK_SUGGESTIONS_ERROR_REMOVE_INVALID => Ok(RemoveOutcome::NotPresent),
        STATUS_NETWORK_SUGGESTIONS_ERROR_INTERNAL => Err(
            os_message("WifiManager remove: STATUS_NETWORK_SUGGESTIONS_ERROR_INTERNAL"),
        ),
        STATUS_NETWORK_SUGGESTIONS_ERROR_APP_DISALLOWED
        | STATUS_NETWORK_SUGGESTIONS_ERROR_RESTRICTED_BY_ADMIN => Err(
            Error::PermissionDenied("network suggestions disallowed for this app"),
        ),
        other => Err(unknown_status("WifiManager remove: unknown status ", other)),
    }
}

/// An add fails for every status but success and a duplicate: as a denied
/// permission where the app may not suggest, else with a message that names the
/// status.
pub proof fn adds_fail_by_status(status: i32)
    ensures
        add_error(status) is None <==> status == 0 || status == 3,
        add_error(status) == Some(
            ErrorView::PermissionDenied("network suggestions disallowed for this app"@),
        ) <==> status == 2 || status == 6 || status == 7,
        status == 1 ==> add_error(status) == Some(
            ErrorView::Os(
                OsErrorView::Message("WifiManager add: STATUS_NETWORK_SUGGESTIONS_ERROR_INTERNAL"@),
            ),
        ),
        status == 4 ==> add_error(status) == Some(
            ErrorView::Os(
                OsErrorView::Message(
                    "WifiManager add: STATUS_NETWORK_SUGGESTIONS_ERROR_ADD_EXCEEDS_MAX_PER_APP"@,
                ),
            ),
        ),
        status == 5 ==> add_error(status) == Some(
            ErrorView::Os(
                OsErrorView::Message(
                    "WifiManager add: unexpected STATUS_NETWORK_SUGGESTIONS_ERROR_REMOVE_INVALID"@,
                ),
            ),
        ),
        status == 8 ==> add_error(status) == Some(
            ErrorView::Os(
                OsErrorView::Message("WifiManager add: STATUS_NETWORK_SUGGESTIONS_ERROR_ADD_INVALID"@),
            ),
        ),
        status < 0 || status > 8 ==> add_error(status) == Some(
            ErrorView::Os(
                OsErrorView::Message("WifiManager add: unknown status "@ + signed_text(status as int)),
            ),
        ),
{
}

/// A removal succeeds when the OS removed something or had nothing to remove, and
/// tells the two apart; every other status is an error.
pub proof fn removals_succeed_or_fail_by_status(status: i32)
    ensures
        remove_outcome(status) == Ok::<RemoveOutcome, ErrorView>(RemoveOutcome::WasRemoved) <==> status
            == 0,
        remove_outcome(status) == Ok::<RemoveOutcome, ErrorView>(RemoveOutcome::NotPresent) <==> status
            == 5,
        status == 1 ==> remove_outcome(status) == Err::<RemoveOutcome, ErrorView>(
            ErrorView::Os(
                OsErrorView::Message("WifiManager remove: STATUS_NETWORK_SUGGESTIONS_ERROR_INTERNAL"@),
            ),
        ),
        status == 2 || status == 7 ==> remove_outcome(status) == Err::<RemoveOutcome, ErrorView>(
            ErrorView::PermissionDenied("network suggestions disallowed for this app"@),
        ),
        status < 0 || status == 3 || status == 4 || status == 6 || status > 7 ==> remove_outcome(status)
            == Err::<RemoveOutcome, ErrorView>(
            ErrorView::Os(
                OsErrorView::Message(
                    "WifiManager remove: unknown status "@ + signed_text(status as int),
                ),
            ),
        ),
{
}

} // verus!
