//! `NSError` -> [`Error`] mapping.
//!
//! `CWInterface` operations (scan, associate) report failures as `NSError`
//! values whose `domain` and `code` together identify the underlying cause.
//!
//! Two domains are recognised:
//! * `CWErrorDomain` — `CoreWLAN`'s own errors.
//! * `kCLErrorDomain` — Core Location's domain. `macOS` surfaces "user has
//!   not authorised Wi-Fi info" failures here when an app tries to read
//!   scan results without Location Services permission.
//!
//! Anything else falls through to `Error::Os` carrying the description.

use vstd::prelude::*;

use crate::duration::{duration_nanos, seconds};
use crate::error::{
    os_message,
    Error,
    ErrorView,
    NsErrorView,
    NsErrorWrapper,
    OsErrorView,
};
use crate::text::{push_signed, same_text, signed_text};

verus! {

broadcast use vstd::string::group_string_axioms;

/// Core Location's error domain.
pub const CL_ERROR_DOMAIN: &'static str = "kCLErrorDomain";

// CWErr, see CoreWLANTypes.h.
pub const CW_NO_ERR: i64 = 0;
pub const CW_INVALID_PARAMETER_ERR: i64 = -3900;
pub const CW_TIMEOUT_ERR: i64 = -3905;
pub const CW_UNSPECIFIED_FAILURE_ERR: i64 = -3906;
pub const CW_REASSOCIATION_DENIED_ERR: i64 = -3908;
pub const CW_ASSOCIATION_DENIED_ERR: i64 = -3909;
pub const CW_AUTHENTICATION_ALGORITHM_UNSUPPORTED_ERR: i64 = -3910;
pub const CW_CHALLENGE_FAILURE_ERR: i64 = -3912;
pub const CW_INVALID_GROUP_CIPHER_ERR: i64 = -3918;
pub const CW_INVALID_PAIRWISE_CIPHER_ERR: i64 = -3919;
pub const CW_INVALID_AKMP_ERR: i64 = -3920;
pub const CW_CIPHER_SUITE_REJECTED_ERR: i64 = -3923;
pub const CW_INVALID_PMK_ERR: i64 = -3924;
pub const CW_SUPPLICANT_TIMEOUT_ERR: i64 = -3925;
pub const CW_OPERATION_NOT_PERMITTED_ERR: i64 = -3930;

/// Authentication, cipher and association failures: callers retry with new
/// credentials, not by inspecting the precise sub-reason.
pub open spec fn is_authentication_code(code: int) -> bool {
    code == CW_UNSPECIFIED_FAILURE_ERR || code == CW_AUTHENTICATION_ALGORITHM_UNSUPPORTED_ERR
        || code == CW_CHALLENGE_FAILURE_ERR || code == CW_INVALID_PMK_ERR || code
        == CW_SUPPLICANT_TIMEOUT_ERR || code == CW_INVALID_GROUP_CIPHER_ERR || code
        == CW_INVALID_PAIRWISE_CIPHER_ERR || code == CW_INVALID_AKMP_ERR || code
        == CW_CIPHER_SUITE_REJECTED_ERR || code == CW_ASSOCIATION_DENIED_ERR || code
        == CW_REASSOCIATION_DENIED_ERR
}

/// `e` is the error for a `CWErr` code. A time limit of the driver is reported
/// without a duration: `CoreWLAN` does not tell how long it waited.
pub open spec fn is_cw_error(code: int, e: ErrorView) -> bool {
    if code == CW_NO_ERR {
        e == ErrorView::Os(OsErrorView::Message("CWErr::CWNoErr surfaced as failure"@))
    } else if is_authentication_code(code) {
        e == ErrorView::AuthenticationFailed
    } else if code == CW_OPERATION_NOT_PERMITTED_ERR {
        e == ErrorView::PermissionDenied("CoreWLAN"@)
    } else if code == CW_TIMEOUT_ERR {
        e matches ErrorView::Timeout(d) && duration_nanos(d) == 0
    } else if code == CW_INVALID_PARAMETER_ERR {
        e == ErrorView::SsidNotInRange
    } else {
        e == ErrorView::Os(
            OsErrorView::Message(
                "CoreWLAN association failed: CWErr("@ + signed_text(code) + ")"@,
            ),
        )
    }
}

/// Map a `CWErr` numeric code to a typed [`Error`] variant.
pub fn map_cwerr_code(code: i64) -> (r: Error)
    ensures
        is_cw_error(code as int, r@),
{
    match code {
        CW_NO_ERR => os_message("CWErr::CWNoErr surfaced as failure"),
        CW_UNSPECIFIED_FAILURE_ERR
        | CW_AUTHENTICATION_ALGORITHM_UNSUPPORTED_ERR
        | CW_CHALLENGE_FAILURE_ERR
        | CW_INVALID_PMK_ERR
        | CW_SUPPLICANT_TIMEOUT_ERR
        | CW_INVALID_GROUP_CIPHER_ERR
        | CW_INVALID_PAIRWISE_CIPHER_ERR
        | CW_INVALID_AKMP_ERR
        | CW_CIPHER_SUITE_REJECTED_ERR
        | CW_ASSOCIATION_DENIED_ERR
        | CW_REASSOCIATION_DENIED_ERR => Error::AuthenticationFailed,
        CW_OPERATION_NOT_PERMITTED_ERR => Error::PermissionDenied("CoreWLAN"),
        CW_TIMEOUT_ERR => Error::Timeout(seconds(0)),
        // The driver rejected the network we passed (typically because the entry
        // was evicted between scan and associate).
        CW_INVALID_PARAMETER_ERR => Error::SsidNotInRange,
        other => {
            let mut text = "CoreWLAN association failed: CWErr(".to_owned();
            push_signed(&mut text, other);
            text.push_str(")");
            os_message(text.as_str())
        },
    }
}

/// `e` is the error for a failed associate.
pub open spec fn is_associate_error(
    err: NsErrorView,
    cw_domain: Seq<char>,
    e: ErrorView,
) -> bool {
    if err.domain == cw_domain {
        is_cw_error(err.code, e)
    } else {
        e == scan_error(err)
    }
}

/// Map the `NSError` of an associate into a typed [`Error`]. `cw_domain` is the
/// value of `CoreWLAN`'s symbol `CWErrorDomain`.
pub fn map_associate_nserror(err: &NsErrorWrapper, cw_domain: &str) -> (r: Error)
    ensures
        is_associate_error(err@, cw_domain@, r@),
{
    if same_text(err.domain.as_str(), cw_domain) {
        return map_cwerr_code(err.code);
    }
    map_scan_nserror_to_error(err)
}

/// The error for a failed scan.
pub open spec fn scan_error(err: NsErrorView) -> ErrorView {
    if err.domain == CL_ERROR_DOMAIN@ {
        ErrorView::PermissionDenied("Location Services"@)
    } else {
        ErrorView::Os(OsErrorView::Message(err.description))
    }
}

/// Map the `NSError` of a scan into a typed [`Error`].
pub fn map_scan_nserror_to_error(err: &NsErrorWrapper) -> (r: Error)
    ensures
        r@ == scan_error(err@),
{
    if same_text(err.domain.as_str(), CL_ERROR_DOMAIN) {
        return Error::PermissionDenied("Location Services");
    }
    os_message(err.description.as_str())
}

/// What a code is reported as: the failures of authentication, ciphers and
/// association are one, a denied operation, a time limit and a network that is gone
/// have errors of their own, and any other code is named in a message.
pub proof fn cw_errors_go_by_the_code(code: int, e: ErrorView)
    requires
        is_cw_error(code, e),
    ensures
        e is AuthenticationFailed <==> code == -3906 || code == -3910 || code == -3912 || code == -3924 || code == -3925 || code == -3918 || code == -3919 || code == -3920 || code == -3923 || code == -3909 || code == -3908,
        e == ErrorView::PermissionDenied("CoreWLAN"@) <==> code == -3930,
        e is PermissionDenied <==> code == -3930,
        e is Timeout <==> code == -3905,
        e is Timeout ==> duration_nanos(e->Timeout_0) == 0,
        e is SsidNotInRange <==> code == -3900,
        code == 0 ==> e == ErrorView::Os(
            OsErrorView::Message("CWErr::CWNoErr surfaced as failure"@),
        ),
        e is Os && code != 0 ==> e == ErrorView::Os(
            OsErrorView::Message("CoreWLAN association failed: CWErr("@ + signed_text(code) + ")"@),
        ),
        e is AuthenticationFailed || e is PermissionDenied || e is Timeout || e is SsidNotInRange || e
            is Os,
{
}

/// A failed scan is a denied permission exactly when Core Location says so; else
/// its description is kept.
pub proof fn scan_errors_go_by_the_domain(err: NsErrorView)
    ensures
        err.domain == "kCLErrorDomain"@ ==> scan_error(err) == ErrorView::PermissionDenied(
            "Location Services"@,
        ),
        err.domain != "kCLErrorDomain"@ ==> scan_error(err) == ErrorView::Os(
            OsErrorView::Message(err.description),
        ),
{
}

/// The code of a failed associate counts only in `CoreWLAN`'s own domain.
pub proof fn associate_errors_go_by_the_domain(
    err: NsErrorView,
    cw_domain: Seq<char>,
    e: ErrorView,
)
    requires
        is_associate_error(err, cw_domain, e),
    ensures
        err.domain == cw_domain ==> is_cw_error(err.code, e),
        err.domain != cw_domain && err.domain == "kCLErrorDomain"@ ==> e
            == ErrorView::PermissionDenied("Location Services"@),
        err.domain != cw_domain && err.domain != "kCLErrorDomain"@ ==> e == ErrorView::Os(
            OsErrorView::Message(err.description),
        ),
{
}

} // verus!
