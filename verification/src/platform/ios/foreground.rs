//! Foreground check.
//!
//! Apple's `applyConfiguration:` requires the caller's app to be the foreground
//! app. The state is probed *before* the apply so that a connect fails fast with
//! a typed error and without the system "Join Network?" prompt.

use vstd::prelude::*;

use crate::error::{failure, Error, ErrorView};

verus! {

broadcast use vstd::string::group_string_axioms;

/// `UIApplicationState`.
#[derive(Debug, PartialEq, Eq, Clone, Copy, Structural)]
pub enum AppState {
    Active,
    Inactive,
    Background,
}

/// Whether the host app is currently the foreground / active app; `None` if its
/// state could not be read.
///
/// # Errors
///
/// Returns `Error::Unsupported(_)` if it is not: `Inactive` (e.g. transitioning,
/// system alert visible) and `Background` both fail, because the user-visible
/// remedy is the same.
pub fn ensure_foreground(state: Option<AppState>) -> (r: Result<(), Error>)
    ensures
        failure(r) == (if state == Some(AppState::Active) {
            None
        } else {
            Some(ErrorView::Unsupported("requires foreground app"@))
        }),
{
    match state {
        Some(AppState::Active) => Ok(()),
        _ => Err(Error::Unsupported("requires foreground app")),
    }
}

} // verus!
