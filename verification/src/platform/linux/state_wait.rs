//! Wait for an `ActiveConnection` to settle: ACTIVATED (success) or
//! DEACTIVATED (failure with a state-reason).

use std::time::Duration;

use vstd::prelude::*;

use crate::error::{os_message, Error, ErrorView, OsErrorView};
use crate::platform::linux::error_map::{
    map_state_reason,
    state_reason_error,
    REASON_CONNECT_TIMEOUT,
};

verus! {

broadcast use vstd::string::group_string_axioms;

// `NMActiveConnectionState` discriminants.
pub const STATE_ACTIVATED: u32 = 2;
pub const STATE_DEACTIVATED: u32 = 4;

/// How a wait ends, if it does: well, or with that error.
pub enum SettledView {
    Activated,
    Failed(ErrorView),
}

/// What a settled wait says.
pub open spec fn settled_view(r: Option<Result<(), Error>>) -> Option<SettledView> {
    match r {
        None => None,
        Some(Ok(_)) => Some(SettledView::Activated),
        Some(Err(e)) => Some(SettledView::Failed(e@)),
    }
}

/// What a state and its reason mean for the wait.
pub open spec fn terminal_state(state: u32, reason: Option<u32>) -> Option<SettledView> {
    if state == STATE_ACTIVATED {
        Some(SettledView::Activated)
    } else if state == STATE_DEACTIVATED {
        Some(
            SettledView::Failed(
                match reason {
                    None => ErrorView::Os(
                        OsErrorView::Message(
                            "ActiveConnection deactivated before observing state-change reason"@,
                        ),
                    ),
                    Some(r) if r == REASON_CONNECT_TIMEOUT => ErrorView::Os(
                        OsErrorView::Message(
                            "ActiveConnection deactivated: NetworkManager connect timeout"@,
                        ),
                    ),
                    Some(r) => match state_reason_error(r) {
                        Some(e) => e,
                        None => ErrorView::AuthenticationFailed,
                    },
                },
            ),
        )
    } else {
        None
    }
}

/// Map an `(state, reason)` pair into either:
/// - `Some(Ok(()))` if the connection reached ACTIVATED,
/// - `Some(Err(typed_error))` if the connection reached DEACTIVATED,
/// - `None` if the connection is still in progress.
///
/// `reason` is `None` when the state was read as a property (NM does
/// not expose the deactivation reason as a property — only as the trailing
/// argument of the `StateChanged` signal). In that case a DEACTIVATED
/// state is reported as an opaque `Os` error rather than an arbitrary
/// guess like `AuthenticationFailed`.
///
/// A timeout on the side of `NetworkManager` is an `Os` error too: only the
/// caller's own deadline makes an `Error::Timeout`.
pub fn terminal_state_to_error(state: u32, reason: Option<u32>) -> (r: Option<Result<(), Error>>)
    ensures
        settled_view(r) == terminal_state(state, reason),
{
    if state == STATE_ACTIVATED {
        Some(Ok(()))
    } else if state == STATE_DEACTIVATED {
        let err = match reason {
            None => os_message("ActiveConnection deactivated before observing state-change reason"),
            Some(r) if r == REASON_CONNECT_TIMEOUT => os_message(
                "ActiveConnection deactivated: NetworkManager connect timeout",
            ),
            Some(r) => match map_state_reason(r) {
                Some(e) => e,
                None => Error::AuthenticationFailed,
            },
        };
        Some(Err(err))
    } else {
        None
    }
}

/// What happens during a wait.
#[derive(Debug)]
pub enum WaitEvent {
    /// The state was read as a property, right after subscribing to the signal.
    /// `None` if that failed.
    CurrentState(Option<u32>),
    /// The `StateChanged` signal; `None` if its arguments could not be read.
    StateChanged(Option<(u32, u32)>),
    /// The signal stream ended.
    StreamClosed,
    /// The deadline passed.
    Deadline,
}

/// What an event means for a wait with that time limit.
pub open spec fn event_outcome(event: WaitEvent, timeout: Duration) -> Option<SettledView> {
    match event {
        WaitEvent::CurrentState(Some(state)) => terminal_state(state, None),
        WaitEvent::CurrentState(None) => None,
        WaitEvent::StateChanged(Some((state, reason))) => terminal_state(state, Some(reason)),
        WaitEvent::StateChanged(None) => None,
        WaitEvent::StreamClosed => Some(
            SettledView::Failed(
                ErrorView::Os(
                    OsErrorView::Message("ActiveConnection.StateChanged stream closed unexpectedly"@),
                ),
            ),
        ),
        WaitEvent::Deadline => Some(SettledView::Failed(ErrorView::Timeout(timeout))),
    }
}

/// What to make of an event of the wait: the result if it is over, else `None`.
pub fn wait_for_active_connection(event: WaitEvent, timeout: Duration) -> (r: Option<
    Result<(), Error>,
>)
    ensures
        settled_view(r) == event_outcome(event, timeout),
{
    match event {
        WaitEvent::CurrentState(Some(state)) => terminal_state_to_error(state, None),
        WaitEvent::CurrentState(None) => None,
        WaitEvent::StateChanged(Some((state, reason))) => terminal_state_to_error(
            state,
            Some(reason),
        ),
        WaitEvent::StateChanged(None) => None,
        WaitEvent::StreamClosed => Some(
            Err(os_message("ActiveConnection.StateChanged stream closed unexpectedly")),
        ),
        WaitEvent::Deadline => Some(Err(Error::Timeout(timeout))),
    }
}

/// A wait succeeds only on seeing the connection activated.
pub proof fn only_activation_succeeds(event: WaitEvent, timeout: Duration)
    ensures
        event_outcome(event, timeout) == Some(SettledView::Activated) <==> match event {
            WaitEvent::CurrentState(Some(state)) => state == STATE_ACTIVATED,
            WaitEvent::StateChanged(Some((state, _))) => state == STATE_ACTIVATED,
            _ => false,
        },
{
}

/// A wait ends when the connection is activated or deactivated, when the signals
/// end and at the deadline, and goes on after anything else. What a deactivation
/// is reported as goes by its reason, if that is known.
pub proof fn waits_end_when_settled(state: u32, reason: u32, timeout: Duration)
    ensures
        event_outcome(WaitEvent::CurrentState(Some(state)), timeout) == if state == 2 {
            Some(SettledView::Activated)
        } else if state == 4 {
            Some(
                SettledView::Failed(
                    ErrorView::Os(
                        OsErrorView::Message(
                            "ActiveConnection deactivated before observing state-change reason"@,
                        ),
                    ),
                ),
            )
        } else {
            None
        },
        event_outcome(WaitEvent::StateChanged(Some((state, reason))), timeout) == if state == 2 {
            Some(SettledView::Activated)
        } else if state != 4 {
            None
        } else if reason == 6 {
            Some(
                SettledView::Failed(
                    ErrorView::Os(
                        OsErrorView::Message(
                            "ActiveConnection deactivated: NetworkManager connect timeout"@,
                        ),
                    ),
                ),
            )
        } else if reason == 2 {
            Some(SettledView::Failed(ErrorView::UserCancelled))
        } else {
            Some(SettledView::Failed(ErrorView::AuthenticationFailed))
        },
        event_outcome(WaitEvent::CurrentState(None), timeout) is None,
        event_outcome(WaitEvent::StateChanged(None), timeout) is None,
        event_outcome(WaitEvent::StreamClosed, timeout) == Some(
            SettledView::Failed(
                ErrorView::Os(
                    OsErrorView::Message("ActiveConnection.StateChanged stream closed unexpectedly"@),
                ),
            ),
        ),
        event_outcome(WaitEvent::Deadline, timeout) == Some(
            SettledView::Failed(ErrorView::Timeout(timeout)),
        ),
{
}

/// What a wait came to is seen as it is: going on, well, or with that error.
pub proof fn settled_views_are_faithful(e: Error)
    ensures
        settled_view(None) is None,
        settled_view(Some(Ok(()))) == Some(SettledView::Activated),
        settled_view(Some(Err(e))) == Some(SettledView::Failed(e@)),
{
}

} // verus!
