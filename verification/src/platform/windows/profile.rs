//! `remove_profile`: what `WlanDeleteProfile` and `WlanGetProfile` report.

use vstd::prelude::*;

use crate::error::{Error, ErrorView, OsErrorView};
use crate::platform::windows::util::{win32_error, win32_failure, ERROR_NOT_FOUND};

verus! {

/// What the status of a function that looks up a profile means: whether there
/// was one, or an error.
pub open spec fn lookup_outcome(function: Seq<char>, code: u32) -> Result<bool, ErrorView> {
    if code == 0 {
        Ok(true)
    } else if code == ERROR_NOT_FOUND {
        Ok(false)
    } else {
        Err(win32_failure(function, code))
    }
}

/// What a status says, with the error as a view.
pub open spec fn lookup_view(r: Result<bool, Error>) -> Result<bool, ErrorView> {
    match r {
        Ok(b) => Ok(b),
        Err(e) => Err(e@),
    }
}

/// Turns the status of a function that looks up a profile into whether there was
/// one.
pub fn lookup_result(function: &'static str, code: u32) -> (r: Result<bool, Error>)
    ensures
        lookup_view(r) == lookup_outcome(function@, code),
{
    match code {
        0 => Ok(true),
        ERROR_NOT_FOUND => Ok(false),
        other => Err(win32_error(function, other)),
    }
}

/// The result of deleting a profile, from the status of `WlanDeleteProfile`.
///
/// Returns `Ok(true)` if the profile existed and was deleted, `Ok(false)`
/// if it did not exist.
///
/// # Errors
///
/// Returns `Error::Os(_)` for any Win32 status other than `ERROR_SUCCESS`
/// or `ERROR_NOT_FOUND`.
pub fn run_remove_profile(code: u32) -> (r: Result<bool, Error>)
    ensures
        lookup_view(r) == lookup_outcome("WlanDeleteProfile"@, code),
{
    lookup_result("WlanDeleteProfile", code)
}

/// A profile was there exactly when the status is zero, was not exactly when the
/// status says so, and any other status is an error that names the function.
pub proof fn lookups_tell_absence_from_failure(function: Seq<char>, code: u32)
    ensures
        match lookup_outcome(function, code) {
            Ok(found) => if found { code == 0 } else { code == 0x490 },
            Err(e) => code != 0 && code != 0x490 && e == ErrorView::Os(
                OsErrorView::Win32 { function, code },
            ),
        },
{
}

/// What a lookup came to is seen as it is.
pub proof fn lookup_views_are_faithful(found: bool, e: Error)
    ensures
        lookup_view(Ok(found)) == Ok::<bool, ErrorView>(found),
        lookup_view(Err(e)) == Err::<bool, ErrorView>(e@),
{
}

} // verus!
