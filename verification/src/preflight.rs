//! Best-effort wait for an SSID to appear in scan results, used by backends to
//! enrich errors on connect failures.
//!
//! The wait is a state machine: [`start`] says what to do first, and
//! [`after_scan`] what to do once a scan has come back. Whoever drives it scans
//! and sleeps as told, and scans again after each sleep.

use std::time::Duration;

use vstd::prelude::*;

use crate::duration::{duration_nanos, is_zero, milliseconds, remaining_after, shorter};
use crate::error::{os_error_text, BoxedOsError, Error, OsError};
use crate::types::{time_limit, ConnectOptions, Ssid};

verus! {

broadcast use vstd::string::group_string_axioms;

/// Why a scan failed.
#[derive(Debug)]
pub enum ScanError {
    PermissionDenied,
    Unsupported,
    Os(BoxedOsError),
}

/// The message of a scan error for people.
pub open spec fn scan_error_text(e: ScanError) -> Seq<char> {
    match e {
        ScanError::PermissionDenied => "permission denied for scanning"@,
        ScanError::Unsupported => "scan unsupported on this platform"@,
        ScanError::Os(os) => "os error during scan: "@ + os_error_text(*os),
    }
}

impl ScanError {
    /// The message for people.
    pub fn to_string(&self) -> (r: String)
        ensures
            r@ == scan_error_text(*self),
    {
        match self {
            ScanError::PermissionDenied => "permission denied for scanning".to_owned(),
            ScanError::Unsupported => "scan unsupported on this platform".to_owned(),
            ScanError::Os(os) => {
                let mut out = "os error during scan: ".to_owned();
                out.push_str(os.to_string().as_str());
                out
            },
        }
    }
}

/// How the wait ended.
#[derive(Debug, PartialEq, Eq, Clone, Copy, Structural)]
pub enum ScanOutcome {
    /// The SSID was observed within the timeout.
    Visible,
    /// The SSID was not observed within the timeout (any successful scan
    /// returned, just without the target SSID).
    NotVisible,
    /// The provider reported an error (e.g., missing permission or no scan
    /// API on this platform). Backends should treat this as "skip the
    /// pre-flight" rather than failing the connect.
    Skipped,
}

/// What the driver of the wait does next.
#[derive(Debug, PartialEq, Eq, Clone, Copy)]
pub enum Step {
    /// Scan, and report what came back.
    Scan,
    /// Sleep for that long, then scan.
    Sleep(Duration),
    /// The wait is over.
    Done(ScanOutcome),
}

/// What a [`Step`] says, with lengths in nanoseconds.
pub enum StepView {
    Scan,
    Sleep(nat),
    Done(ScanOutcome),
}

impl View for Step {
    type V = StepView;

    open spec fn view(&self) -> StepView {
        match self {
            Step::Scan => StepView::Scan,
            Step::Sleep(pause) => StepView::Sleep(duration_nanos(*pause)),
            Step::Done(outcome) => StepView::Done(*outcome),
        }
    }
}

/// The pause between two scans, in nanoseconds: 250 ms.
pub open spec fn poll_interval_nanos() -> nat {
    250_000_000
}

/// The first step with `timeout` nanoseconds to wait.
pub open spec fn first_step(timeout: nat) -> StepView {
    if timeout == 0 {
        StepView::Done(ScanOutcome::NotVisible)
    } else {
        StepView::Scan
    }
}

/// The step after a scan that found these SSIDs (nothing if it failed), with
/// `remaining` nanoseconds left.
pub open spec fn next_step(found: Option<Seq<Seq<u8>>>, target: Seq<u8>, remaining: nat) -> StepView {
    match found {
        None => StepView::Done(ScanOutcome::Skipped),
        Some(ssids) => if ssids.contains(target) {
            StepView::Done(ScanOutcome::Visible)
        } else if remaining == 0 {
            StepView::Done(ScanOutcome::NotVisible)
        } else if remaining < poll_interval_nanos() {
            StepView::Sleep(remaining)
        } else {
            StepView::Sleep(poll_interval_nanos())
        },
    }
}

/// The octets of a list of SSIDs.
pub open spec fn ssid_list(ssids: Seq<Ssid>) -> Seq<Seq<u8>> {
    ssids.map_values(|s: Ssid| s@)
}

/// What a scan found, or nothing if it failed.
pub open spec fn scan_reply(result: Result<Vec<Ssid>, ScanError>) -> Option<Seq<Seq<u8>>> {
    match result {
        Ok(found) => Some(ssid_list(found@)),
        Err(_) => None,
    }
}

/// Whether one of the SSIDs is the target.
pub fn is_heard(found: &Vec<Ssid>, target: &Ssid) -> (r: bool)
    ensures
        r == ssid_list(found@).contains(target@),
{
    let mut i: usize = 0;
    while i < found.len()
        invariant
            i <= found@.len(),
            forall|k: int| 0 <= k < i ==> (#[trigger] found@[k])@ != target@,
        decreases found@.len() - i,
    {
        if found[i].same_as(target) {
            assert(ssid_list(found@)[i as int] == target@);
            return true;
        }
        i = i + 1;
    }
    false
}

/// The first step: a scan right away, or nothing at all without any time.
pub fn start(timeout: &Duration) -> (r: Step)
    ensures
        r@ == first_step(duration_nanos(*timeout)),
{
    if is_zero(timeout) {
        Step::Done(ScanOutcome::NotVisible)
    } else {
        Step::Scan
    }
}

/// What follows a scan that came back with `result`, when `remaining` is left
/// until the deadline.
///
/// A scan without the target is followed by a sleep of the poll interval or
/// the remaining budget, whichever is smaller, so that short timeouts still get a
/// final retry rather than being preempted mid-sleep.
pub fn after_scan(result: &Result<Vec<Ssid>, ScanError>, target: &Ssid, remaining: Duration) -> (r:
    Step)
    ensures
        r@ == next_step(scan_reply(*result), target@, duration_nanos(remaining)),
{
    match result {
        Ok(found) => {
            if is_heard(found, target) {
                return Step::Done(ScanOutcome::Visible);
            }
        },
        Err(_) => {
            return Step::Done(ScanOutcome::Skipped);
        },
    }
    if is_zero(&remaining) {
        return Step::Done(ScanOutcome::NotVisible);
    }
    Step::Sleep(shorter(milliseconds(250), remaining))
}

/// One scan of a wait, as far as the wait is concerned.
pub struct ScanEvent {
    /// The SSIDs that were found, or nothing if the scan failed.
    pub found: Option<Seq<Seq<u8>>>,
    /// Nanoseconds left until the deadline when the scan had come back.
    pub remaining: nat,
}

/// How a wait for `target` ends that sees these scans, one after the other, or
/// nothing if it is still going on after them.
pub open spec fn outcome_of(events: Seq<ScanEvent>, target: Seq<u8>) -> Option<ScanOutcome>
    decreases events.len(),
{
    if events.len() == 0 {
        None
    } else {
        match next_step(events[0].found, target, events[0].remaining) {
            StepView::Done(outcome) => Some(outcome),
            _ => outcome_of(events.drop_first(), target),
        }
    }
}

/// A sleep lasts some time, but no longer than the poll interval and never past
/// the deadline.
pub proof fn sleep_stays_within_the_budget(
    found: Option<Seq<Seq<u8>>>,
    target: Seq<u8>,
    remaining: nat,
)
    ensures
        next_step(found, target, remaining) matches StepView::Sleep(pause) ==> 0 < pause
            <= remaining && pause <= poll_interval_nanos(),
{
}

/// The target counts as visible only if some scan found it, as skipped only if
/// some scan failed, and as not visible only if time ran out without a sighting.
pub proof fn outcome_has_its_reason(events: Seq<ScanEvent>, target: Seq<u8>)
    ensures
        outcome_of(events, target) == Some(ScanOutcome::Visible) ==> exists|i: int|
            0 <= i < events.len() && #[trigger] events[i].found is Some
                && events[i].found->0.contains(target),
        outcome_of(events, target) == Some(ScanOutcome::Skipped) ==> exists|i: int|
            0 <= i < events.len() && #[trigger] events[i].found is None,
        outcome_of(events, target) == Some(ScanOutcome::NotVisible) ==> exists|i: int|
            0 <= i < events.len() && #[trigger] events[i].remaining == 0 && forall|j: int|
                0 <= j <= i ==> (#[trigger] events[j].found) is Some
                    && !events[j].found->0.contains(target),
    decreases events.len(),
{
    if events.len() > 0 {
        let rest = events.drop_first();
        outcome_has_its_reason(rest, target);
        assert(forall|i: int| 0 <= i < rest.len() ==> rest[i] == events[i + 1]);
        if events[0].found is Some && !events[0].found->0.contains(target) && events[0].remaining
            != 0 {
            let o = outcome_of(rest, target);
            if o == Some(ScanOutcome::Visible) {
                let i = choose|i: int|
                    0 <= i < rest.len() && #[trigger] rest[i].found is Some
                        && rest[i].found->0.contains(target);
                assert(events[i + 1].found is Some);
            } else if o == Some(ScanOutcome::Skipped) {
                let i = choose|i: int| 0 <= i < rest.len() && #[trigger] rest[i].found is None;
                assert(events[i + 1].found is None);
            } else if o == Some(ScanOutcome::NotVisible) {
                let i = choose|i: int|
                    0 <= i < rest.len() && #[trigger] rest[i].remaining == 0 && forall|j: int|
                        0 <= j <= i ==> (#[trigger] rest[j].found) is Some
                            && !rest[j].found->0.contains(target);
                assert(events[i + 1].remaining == 0);
                assert forall|j: int| 0 <= j <= i + 1 implies (#[trigger] events[j].found) is Some
                    && !events[j].found->0.contains(target) by {
                    if j > 0 {
                        assert(rest[j - 1].found == events[j].found);
                    }
                }
            }
        }
    }
}

/// What is left of `limit` nanoseconds after `elapsed` of them.
pub open spec fn time_left(limit: nat, elapsed: nat) -> nat {
    if elapsed < limit {
        (limit - elapsed) as nat
    } else {
        0
    }
}

/// How long a connect may still wait for its outcome when `elapsed` has passed
/// since it began: the time limit is one for the overall operation, and what the
/// pre-flight scan took is gone.
pub fn wait_budget(options: &ConnectOptions, elapsed: Duration) -> (r: Duration)
    ensures
        duration_nanos(r) == time_left(time_limit(*options), duration_nanos(elapsed)),
{
    remaining_after(options.effective_timeout(), elapsed)
}

/// A connect that waits no longer than its budget ends within its time limit,
/// unless that was over before the wait.
pub proof fn the_wait_stays_within_the_limit(limit: nat, elapsed: nat, waited: nat)
    requires
        waited <= time_left(limit, elapsed),
    ensures
        elapsed + waited <= limit || (elapsed > limit && waited == 0),
{
}

/// Translate an [`Error`] from the rich scan path back to the pre-flight's
/// [`ScanError`] family. What has no counterpart there is kept as an OS error.
pub fn scan_error_from(err: Error) -> (r: ScanError)
    ensures
        err is PermissionDenied ==> r is PermissionDenied,
        err is Unsupported ==> r is Unsupported,
        err matches Error::Os(inner) ==> r == ScanError::Os(inner),
        !(err is PermissionDenied || err is Unsupported || err is Os) ==> (r matches ScanError::Os(
            inner,
        ) && *inner == OsError::Library(err)),
{
    match err {
        Error::PermissionDenied(_) => ScanError::PermissionDenied,
        Error::Unsupported(_) => ScanError::Unsupported,
        Error::Os(inner) => ScanError::Os(inner),
        other => ScanError::Os(Box::new(OsError::Library(other))),
    }
}

/// The wait begins with a scan, unless there is no time at all.
pub proof fn waits_begin_with_a_scan(timeout: nat)
    ensures
        timeout == 0 ==> first_step(timeout) == StepView::Done(ScanOutcome::NotVisible),
        timeout > 0 ==> first_step(timeout) == StepView::Scan,
{
}

/// After a scan, the wait is over when the scan failed, when it found the target
/// and when no time is left; else it sleeps for a quarter of a second, or for what
/// is left if that is less.
pub proof fn scans_decide_the_next_step(ssids: Seq<Seq<u8>>, target: Seq<u8>, remaining: nat)
    ensures
        next_step(None, target, remaining) == StepView::Done(ScanOutcome::Skipped),
        next_step(Some(ssids), target, remaining) == if exists|i: int|
            0 <= i < ssids.len() && #[trigger] ssids[i] == target {
            StepView::Done(ScanOutcome::Visible)
        } else if remaining == 0 {
            StepView::Done(ScanOutcome::NotVisible)
        } else if remaining < 250_000_000 {
            StepView::Sleep(remaining)
        } else {
            StepView::Sleep(250_000_000)
        },
{
}

/// The first scan that fails, finds the target or leaves no time ends the wait, and
/// says how; a wait without such a scan goes on.
pub proof fn the_first_decisive_scan_ends_the_wait(events: Seq<ScanEvent>, target: Seq<u8>, i: int)
    requires
        0 <= i < events.len(),
        forall|j: int|
            0 <= j < i ==> (#[trigger] events[j]).found is Some && !events[j].found->0.contains(
                target,
            ) && events[j].remaining > 0,
    ensures
        events[i].found is None ==> outcome_of(events, target) == Some(ScanOutcome::Skipped),
        events[i].found is Some && events[i].found->0.contains(target) ==> outcome_of(
            events,
            target,
        ) == Some(ScanOutcome::Visible),
        events[i].found is Some && !events[i].found->0.contains(target) && events[i].remaining == 0
            ==> outcome_of(events, target) == Some(ScanOutcome::NotVisible),
        events[i].found is Some && !events[i].found->0.contains(target) && events[i].remaining > 0
            && i == events.len() - 1 ==> outcome_of(events, target) is None,
    decreases i,
{
    reveal_with_fuel(outcome_of, 2);
    let rest = events.drop_first();
    if i > 0 {
        assert(events[0].found is Some);
        assert forall|j: int| 0 <= j < i - 1 implies (#[trigger] rest[j]).found is Some
            && !rest[j].found->0.contains(target) && rest[j].remaining > 0 by {
            assert(rest[j] == events[j + 1]);
        }
        assert(rest[i - 1] == events[i]);
        the_first_decisive_scan_ends_the_wait(rest, target, i - 1);
    }
}

/// What is left of a limit is the difference, and nothing once it has passed.
pub proof fn time_runs_out_at_the_limit(limit: nat, elapsed: nat)
    ensures
        elapsed <= limit ==> time_left(limit, elapsed) + elapsed == limit,
        elapsed >= limit ==> time_left(limit, elapsed) == 0,
{
}

/// A scan's reply is the octets of what it found, one for one, and nothing if it
/// failed.
pub proof fn replies_list_what_was_found(found: Vec<Ssid>, error: ScanError, k: int)
    requires
        0 <= k < found@.len(),
    ensures
        scan_reply(Ok(found)) is Some,
        scan_reply(Ok(found))->0.len() == found@.len(),
        scan_reply(Ok(found))->0[k] == found@[k]@,
        scan_reply(Err(error)) is None,
{
}

/// The message of each scan error, and the step that each view stands for.
pub proof fn scan_errors_print_their_kind(os: OsError, pause: Duration, outcome: ScanOutcome)
    ensures
        scan_error_text(ScanError::PermissionDenied) == "permission denied for scanning"@,
        scan_error_text(ScanError::Unsupported) == "scan unsupported on this platform"@,
        scan_error_text(ScanError::Os(Box::new(os))) == "os error during scan: "@ + os_error_text(os),
        Step::Scan@ == StepView::Scan,
        Step::Sleep(pause)@ == StepView::Sleep(duration_nanos(pause)),
        Step::Done(outcome)@ == StepView::Done(outcome),
{
}

} // verus!
