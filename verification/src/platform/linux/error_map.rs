//! Mapping `NetworkManager` `D-Bus` errors and active-connection state
//! reasons to [`Error`] variants.

use vstd::prelude::*;

use crate::error::{os_message, Error, ErrorView, OsErrorView};
use crate::text::{ends_with, same_text};

verus! {

broadcast use vstd::string::group_string_axioms;

// NMActiveConnectionStateReason values, see nm-dbus-types.h.
pub const REASON_USER_DISCONNECTED: u32 = 2;
pub const REASON_DEVICE_DISCONNECTED: u32 = 3;
pub const REASON_CONNECT_TIMEOUT: u32 = 6;
pub const REASON_NO_SECRETS: u32 = 9;
pub const REASON_LOGIN_FAILED: u32 = 10;

/// The `D-Bus` error names that mean a denied permission: the daemon's own, which
/// end in `.PermissionDenied` or `.NotAuthorized`, and that of the bus itself.
pub open spec fn is_denial(name: Seq<char>) -> bool {
    ||| ".PermissionDenied"@.is_suffix_of(name)
    ||| ".NotAuthorized"@.is_suffix_of(name)
    ||| name == "org.freedesktop.DBus.Error.AccessDenied"@
}

/// Map a `D-Bus` error name to a typed `Error` variant. Returns `None` for
/// names the caller should surface as `Error::Os(...)`.
pub fn map_dbus_error_name(name: &str) -> (r: Option<Error>)
    ensures
        r is Some <==> is_denial(name@),
        r matches Some(e) ==> e@ == ErrorView::PermissionDenied("polkit"@),
{
    if ends_with(name, ".PermissionDenied") || ends_with(name, ".NotAuthorized") || same_text(
        name,
        "org.freedesktop.DBus.Error.AccessDenied",
    ) {
        return Some(Error::PermissionDenied("polkit"));
    }
    None
}

/// The error that an `NMActiveConnectionStateReason` stands for, where it has one
/// of its own.
pub open spec fn state_reason_error(reason: u32) -> Option<ErrorView> {
    if reason == REASON_NO_SECRETS || reason == REASON_LOGIN_FAILED {
        Some(ErrorView::AuthenticationFailed)
    } else if reason == REASON_USER_DISCONNECTED {
        Some(ErrorView::UserCancelled)
    } else {
        None
    }
}

/// Map an `NMActiveConnectionStateReason` to a typed `Error` variant.
/// Returns `None` if the reason has no specific mapping (caller should
/// surface as `Error::Os(...)` or a generic `AuthenticationFailed`).
pub fn map_state_reason(reason: u32) -> (r: Option<Error>)
    ensures
        r is Some <==> state_reason_error(reason) is Some,
        r matches Some(e) ==> Some(e@) == state_reason_error(reason),
{
    if reason == REASON_NO_SECRETS || reason == REASON_LOGIN_FAILED {
        Some(Error::AuthenticationFailed)
    } else if reason == REASON_USER_DISCONNECTED {
        Some(Error::UserCancelled)
    } else {
        None
    }
}

/// The error for a failed `D-Bus` call: `name` is that of the error reply, if
/// the call was answered by one, and `text` the description.
pub open spec fn dbus_error(name: Option<Seq<char>>, text: Seq<char>) -> ErrorView {
    if name is Some && is_denial(name->0) {
        ErrorView::PermissionDenied("polkit"@)
    } else {
        ErrorView::Os(OsErrorView::Message(text))
    }
}

/// Convert a `D-Bus` failure into an `Error`. If the reply's error name is
/// recognized (`map_dbus_error_name`), return the typed variant; otherwise wrap
/// the description as `Error::Os(...)`.
pub fn from_zbus(name: Option<&str>, text: &str) -> (r: Error)
    ensures
        r@ == dbus_error(
            match name {
                Some(n) => Some(n@),
                None => None,
            },
            text@,
        ),
{
    if let Some(n) = name {
        if let Some(typed) = map_dbus_error_name(n) {
            return typed;
        }
    }
    os_message(text)
}

/// Missing secrets and a failed login are a failed authentication, a disconnect by
/// the user is a cancellation, and no other reason has an error of its own.
pub proof fn state_reasons_are_told_apart(reason: u32)
    ensures
        state_reason_error(reason) == Some(ErrorView::AuthenticationFailed) <==> reason == 9 || reason
            == 10,
        state_reason_error(reason) == Some(ErrorView::UserCancelled) <==> reason == 2,
        state_reason_error(reason) is None <==> reason != 9 && reason != 10 && reason != 2,
{
}

/// A failed call is a denied permission exactly when the reply's name says so;
/// else its description is kept.
pub proof fn denials_go_by_the_name(name: Option<Seq<char>>, text: Seq<char>)
    ensures
        ({
            let denied = name is Some && (".PermissionDenied"@.is_suffix_of(name->0)
                || ".NotAuthorized"@.is_suffix_of(name->0) || name->0
                == "org.freedesktop.DBus.Error.AccessDenied"@);
            &&& denied ==> dbus_error(name, text) == ErrorView::PermissionDenied("polkit"@)
            &&& !denied ==> dbus_error(name, text) == ErrorView::Os(OsErrorView::Message(text))
        }),
{
}

} // verus!
