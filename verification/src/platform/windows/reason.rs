//! Map `WLAN_REASON_CODE` values into typed [`Error`] variants.

use vstd::prelude::*;

pub use crate::error::WlanReasonError;
use crate::error::{failure, Error, ErrorView, OsError, OsErrorView};

verus! {

// Numeric reason codes lifted from `wlanapi.h`.
pub const SUCCESS: u32 = 0;

// Automatic connection error codes.
pub const NETWORK_NOT_AVAILABLE: u32 = 0x0002_8003;
pub const NOT_VISIBLE: u32 = 0x0002_8002;
pub const KEY_MISMATCH: u32 = 0x0002_800C;
pub const PROFILE_CHANGED_OR_DELETED: u32 = 0x0002_800D;

// MSM connection failure codes.
pub const USER_CANCELLED: u32 = 0x0003_8001;
pub const ASSOCIATION_TIMEOUT: u32 = 0x0003_8003;
pub const SECURITY_FAILURE: u32 = 0x0003_8005;
pub const SECURITY_TIMEOUT: u32 = 0x0003_8006;
pub const PSK_MISMATCH_SUSPECTED: u32 = 0x0004_8011;

/// The error that a reason code stands for; none for success.
pub open spec fn reason_error(code: u32) -> Option<ErrorView> {
    if code == SUCCESS {
        None
    } else if code == PSK_MISMATCH_SUSPECTED || code == KEY_MISMATCH || code == SECURITY_FAILURE {
        Some(ErrorView::AuthenticationFailed)
    } else if code == NETWORK_NOT_AVAILABLE || code == NOT_VISIBLE || code
        == PROFILE_CHANGED_OR_DELETED {
        Some(ErrorView::SsidNotInRange)
    } else if code == USER_CANCELLED {
        Some(ErrorView::UserCancelled)
    } else {
        Some(ErrorView::Os(OsErrorView::WlanReason(code)))
    }
}

/// An error that carries the reason code.
pub fn reason_as_os_error(code: u32) -> (r: Error)
    ensures
        r@ == ErrorView::Os(OsErrorView::WlanReason(code)),
{
    Error::Os(Box::new(OsError::WlanReason(WlanReasonError(code))))
}

/// Convert a `WLAN_REASON_CODE` (raw `u32`) into `Result<(), Error>`.
///
/// # Errors
///
/// Returns the mapped `Error` variant for any non-success code.
pub fn map_reason_code(code: u32) -> (r: Result<(), Error>)
    ensures
        failure(r) == reason_error(code),
{
    match code {
        SUCCESS => Ok(()),
        PSK_MISMATCH_SUSPECTED | KEY_MISMATCH | SECURITY_FAILURE => Err(Error::AuthenticationFailed),
        NETWORK_NOT_AVAILABLE | NOT_VISIBLE | PROFILE_CHANGED_OR_DELETED => Err(
            Error::SsidNotInRange,
        ),
        USER_CANCELLED => Err(Error::UserCancelled),
        other => Err(reason_as_os_error(other)),
    }
}

/// Only the zero code names no error. A wrong key, a network that is gone and a
/// user who gave up are told apart, and any other code is kept.
pub proof fn reasons_are_told_apart(code: u32)
    ensures
        reason_error(code) is None <==> code == 0,
        reason_error(code) == Some(ErrorView::AuthenticationFailed) <==> code == 0x0004_8011 || code
            == 0x0002_800C || code == 0x0003_8005,
        reason_error(code) == Some(ErrorView::SsidNotInRange) <==> code == 0x0002_8003 || code
            == 0x0002_8002 || code == 0x0002_800D,
        reason_error(code) == Some(ErrorView::UserCancelled) <==> code == 0x0003_8001,
        reason_error(code) matches Some(ErrorView::Os(e)) ==> e == OsErrorView::WlanReason(code),
        reason_error(code) matches Some(e) ==> e is AuthenticationFailed || e is SsidNotInRange || e
            is UserCancelled || e is Os,
{
}

} // verus!
