//! `NEHotspotConfigurationError` (an `NSError`) as [`Error`].

use vstd::prelude::*;

use crate::error::{Error, ErrorView, NsErrorView, NsErrorWrapper, OsError, OsErrorView};
use crate::text::same_text;

verus! {

broadcast use vstd::string::group_string_axioms;

/// The Objective-C domain name for `NEHotspotConfigurationError`.
pub const NE_HOTSPOT_DOMAIN: &'static str = "NEHotspotConfigurationErrorDomain";

// Raw values of `NEHotspotConfigurationError`, stable across iOS versions.
pub const INVALID_WPA_PASSPHRASE: i64 = 2;
pub const INVALID_WEP_PASSPHRASE: i64 = 3;
pub const USER_DENIED: i64 = 7;
pub const ALREADY_ASSOCIATED: i64 = 13;
pub const APPLICATION_NOT_IN_FOREGROUND: i64 = 14;
pub const USER_UNAUTHORIZED: i64 = 16;
pub const SYSTEM_DENIED: i64 = 17;

/// Result of mapping a non-nil `NSError` returned by `applyConfiguration:`.
///
/// `AlreadyAssociated` is its own variant (rather than a successful mapping)
/// so the caller can disambiguate "the OS reported a benign 'already on
/// the target network' status" from "no error at all".
#[derive(Debug)]
pub enum MappedError {
    /// Caller should propagate this as the `connect` / etc. result.
    Surface(Error),
    /// Caller should treat the operation as successful (`Ok(())`).
    AlreadyAssociated,
}

/// What an error of the configuration manager comes to; `None` if the device is
/// on the target network already.
pub open spec fn hotspot_error(err: NsErrorView) -> Option<ErrorView> {
    if err.domain != NE_HOTSPOT_DOMAIN@ {
        Some(ErrorView::Os(OsErrorView::Ns(err)))
    } else if err.code == INVALID_WPA_PASSPHRASE || err.code == INVALID_WEP_PASSPHRASE {
        Some(ErrorView::AuthenticationFailed)
    } else if err.code == USER_DENIED {
        Some(ErrorView::UserCancelled)
    } else if err.code == ALREADY_ASSOCIATED {
        None
    } else if err.code == APPLICATION_NOT_IN_FOREGROUND {
        Some(ErrorView::Unsupported("requires foreground app"@))
    } else if err.code == USER_UNAUTHORIZED {
        Some(ErrorView::PermissionDenied("hotspot configuration not entitled"@))
    } else if err.code == SYSTEM_DENIED {
        Some(ErrorView::PermissionDenied("system denied hotspot configuration"@))
    } else {
        Some(ErrorView::Os(OsErrorView::Ns(err)))
    }
}

/// Translate an `NSError` from a `NEHotspotConfigurationManager` callback
/// into a typed [`Error`] (or the `AlreadyAssociated` sentinel).
pub fn map_ne_error(err: NsErrorWrapper) -> (r: MappedError)
    ensures
        hotspot_error(err@) == (match r {
            MappedError::Surface(e) => Some(e@),
            MappedError::AlreadyAssociated => None,
        }),
{
    if !same_text(err.domain.as_str(), NE_HOTSPOT_DOMAIN) {
        return MappedError::Surface(Error::Os(Box::new(OsError::Ns(err))));
    }
    match err.code {
        INVALID_WPA_PASSPHRASE | INVALID_WEP_PASSPHRASE => MappedError::Surface(
            Error::AuthenticationFailed,
        ),
        USER_DENIED => MappedError::Surface(Error::UserCancelled),
        ALREADY_ASSOCIATED => MappedError::AlreadyAssociated,
        APPLICATION_NOT_IN_FOREGROUND => MappedError::Surface(
            Error::Unsupported("requires foreground app"),
        ),
        USER_UNAUTHORIZED => MappedError::Surface(
            Error::PermissionDenied("hotspot configuration not entitled"),
        ),
        SYSTEM_DENIED => MappedError::Surface(
            Error::PermissionDenied("system denied hotspot configuration"),
        ),
        _ => MappedError::Surface(Error::Os(Box::new(OsError::Ns(err)))),
    }
}

/// Only an error of the hotspot domain is taken apart: a bad passphrase, a user who
/// declined, an app in the background and a missing entitlement have errors of
/// their own, being there already is none, and any other is kept whole.
pub proof fn hotspot_errors_go_by_domain_and_code(err: NsErrorView)
    ensures
        hotspot_error(err) == if err.domain != "NEHotspotConfigurationErrorDomain"@ {
            Some(ErrorView::Os(OsErrorView::Ns(err)))
        } else if err.code == 2 || err.code == 3 {
            Some(ErrorView::AuthenticationFailed)
        } else if err.code == 7 {
            Some(ErrorView::UserCancelled)
        } else if err.code == 13 {
            None
        } else if err.code == 14 {
            Some(ErrorView::Unsupported("requires foreground app"@))
        } else if err.code == 16 {
            Some(ErrorView::PermissionDenied("hotspot configuration not entitled"@))
        } else if err.code == 17 {
            Some(ErrorView::PermissionDenied("system denied hotspot configuration"@))
        } else {
            Some(ErrorView::Os(OsErrorView::Ns(err)))
        },
{
}

} // verus!
