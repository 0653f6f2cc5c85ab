//! Wi-Fi keychain operations, by the status they return.

use vstd::prelude::*;

use crate::error::{failure, os_message, Error, ErrorView, OsErrorView};
use crate::text::{push_signed, signed_text};

verus! {

broadcast use vstd::string::group_string_axioms;

/// `errSecSuccess` from <Security/SecBase.h>.
pub const ERR_SEC_SUCCESS: i32 = 0;
/// `errSecItemNotFound` from <Security/SecBase.h>.
pub const ERR_SEC_ITEM_NOT_FOUND: i32 = -25_300;
/// `errSecAuthFailed` from <Security/SecBase.h>.
pub const ERR_SEC_AUTH_FAILED: i32 = -25_293;

/// What the status of `CWKeychainDeleteWiFiPassword` means.
///
/// Returns `Ok(true)` if an entry was deleted, `Ok(false)` if no entry
/// existed (the operation is then a no-op).
///
/// # Errors
/// - `Error::PermissionDenied("Keychain")` for `errSecAuthFailed`:
///   the user may have denied keychain access.
/// - `Error::Os(...)` for any other status.
pub fn delete_wifi_password(status: i32) -> (r: Result<bool, Error>)
    ensures
        r == Ok::<bool, Error>(true) <==> status == ERR_SEC_SUCCESS,
        r == Ok::<bool, Error>(false) <==> status == ERR_SEC_ITEM_NOT_FOUND,
        r == Ok::<bool, Error>(true) <==> status == 0,
        r == Ok::<bool, Error>(false) <==> status == -25_300,
        failure(r) == Some(ErrorView::PermissionDenied("Keychain"@)) <==> status == -25_293,
        failure(r) == (if status == ERR_SEC_SUCCESS || status == ERR_SEC_ITEM_NOT_FOUND {
            None
        } else if status == ERR_SEC_AUTH_FAILED {
            Some(ErrorView::PermissionDenied("Keychain"@))
        } else {
            Some(
                ErrorView::Os(
                    OsErrorView::Message(
                        "CWKeychainDeleteWiFiPassword failed: OSStatus "@ + signed_text(
                            status as int,
                        ),
                    ),
                ),
            )
        }),
{
    match status {
        ERR_SEC_SUCCESS => Ok(true),
        ERR_SEC_ITEM_NOT_FOUND => Ok(false),
        ERR_SEC_AUTH_FAILED => Err(Error::PermissionDenied("Keychain")),
        other => {
            let mut text = "CWKeychainDeleteWiFiPassword failed: OSStatus ".to_owned();
            push_signed(&mut text, other as i64);
            Err(os_message(text.as_str()))
        },
    }
}

/// Whether the status of `CWKeychainFindWiFiPassword` says that there is an
/// entry.
pub fn keychain_entry_exists(status: i32) -> (r: bool)
    ensures
        r == (status == ERR_SEC_SUCCESS),
        r == (status == 0),
{
    status == ERR_SEC_SUCCESS
}

} // verus!
