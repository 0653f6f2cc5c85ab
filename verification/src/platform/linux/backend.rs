//! Whether there is a `NetworkManager` to talk to.

use vstd::prelude::*;

use crate::error::{failure, os_message, Error, ErrorView, OsErrorView};

verus! {

broadcast use vstd::string::group_string_axioms;

/// What a probe of the system bus found.
#[derive(Debug)]
pub enum BusProbe {
    /// The system bus is unreachable.
    NoBus,
    /// The bus is reachable but a probe call failed; the description of why.
    Failed(String),
    /// Whether `org.freedesktop.NetworkManager` has an owner.
    Answered(bool),
}

/// Whether the backend can be used.
///
/// # Errors
///
/// - `Error::Unsupported("NetworkManager not running")` — the system
///   bus is unreachable, or `org.freedesktop.NetworkManager` has no
///   owner on it.
/// - `Error::Os(_)` — the D-Bus daemon is reachable but a probe call
///   failed for an unexpected reason.
pub fn check_network_manager(probe: BusProbe) -> (r: Result<(), Error>)
    ensures
        failure(r) == (match probe {
            BusProbe::Answered(true) => None,
            BusProbe::Failed(text) => Some(ErrorView::Os(OsErrorView::Message(text@))),
            _ => Some(ErrorView::Unsupported("NetworkManager not running"@)),
        }),
{
    match probe {
        BusProbe::Answered(true) => Ok(()),
        BusProbe::Failed(text) => Err(os_message(text.as_str())),
        _ => Err(Error::Unsupported("NetworkManager not running")),
    }
}

} // verus!
