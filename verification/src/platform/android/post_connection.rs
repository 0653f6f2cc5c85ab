//! Wait for the device to associate to the target SSID after a
//! successful `addNetworkSuggestions`.
//!
//! Strategy: race the post-connection broadcast against a poll of the connection
//! info against an overall timeout. First signal wins.

use std::time::Duration;

use vstd::prelude::*;
use vstd::utf8::*;

use crate::duration::{duration_nanos, fraction, remaining_after, seconds};
use crate::error::{Error, ErrorView};
use crate::platform::android::suggestion::{ssid_error, ssid_text};
use crate::text::same_text;
use crate::types::Ssid;

verus! {

broadcast use vstd::string::group_string_axioms;

/// What follows a look at the connection.
#[derive(Debug)]
pub enum WaitStep {
    /// The device is associated to the target.
    Associated,
    /// Sleep, then look again.
    KeepWaiting,
    /// It is over.
    GiveUp(Error),
}

/// Whether the reported SSID is the target.
pub open spec fn is_target(reported: Option<String>, target: Seq<u8>) -> bool {
    valid_utf8(target) && reported is Some && reported->0@ == decode_utf8(target)
}

fn matches_target(reported: &Option<String>, target: &Ssid) -> (r: bool)
    ensures
        r == is_target(*reported, target@),
{
    match (reported, target.as_str()) {
        (Some(active), Some(wanted)) => same_text(active.as_str(), wanted),
        _ => false,
    }
}

/// What to do after one round of the wait: `at_broadcast` is the SSID that was
/// reported when the broadcast had fired (nothing if it had not), `polled` the
/// one of the poll that follows. The broadcast can fire for any suggestion, so it
/// counts only together with the right SSID. The wait gives up when its time is
/// over, and at once on an SSID that is not UTF-8.
pub fn wait_for_post_connection(
    at_broadcast: Option<String>,
    polled: Option<String>,
    target: &Ssid,
    expired: bool,
    timeout: Duration,
) -> (r: WaitStep)
    ensures
        r is Associated <==> is_target(at_broadcast, target@) || is_target(polled, target@),
        r is KeepWaiting <==> !is_target(at_broadcast, target@) && !is_target(polled, target@)
            && !expired && ssid_error(target@) is None,
        r matches WaitStep::GiveUp(e) ==> e@ == (match ssid_error(target@) {
            Some(error) => error,
            None => ErrorView::Timeout(timeout),
        }),
{
    if let Err(e) = ssid_text(target) {
        return WaitStep::GiveUp(e);
    }
    if matches_target(&at_broadcast, target) || matches_target(&polled, target) {
        WaitStep::Associated
    } else if expired {
        WaitStep::GiveUp(Error::Timeout(timeout))
    } else {
        WaitStep::KeepWaiting
    }
}

/// How much of a connect's time limit is left for the wait: what remains after a
/// third of it, but at least a second.
pub fn post_connection_budget(timeout: Duration) -> (r: Duration)
    ensures
        ({
            let rest = (duration_nanos(timeout) - duration_nanos(timeout) / 3) as nat;
            duration_nanos(r) == if rest > 1_000_000_000 {
                rest
            } else {
                1_000_000_000
            }
        }),
{
    let rest = remaining_after(timeout, fraction(timeout, 3));
    let second = seconds(1);
    if rest.as_secs() >= 1 {
        rest
    } else {
        second
    }
}

/// The target is the reported SSID exactly when they are the same text; what is
/// not reported, or not text, never is.
pub proof fn targets_are_the_same_text(reported: String, name: Seq<char>, raw: Seq<u8>)
    ensures
        is_target(Some(reported), encode_utf8(name)) <==> reported@ == name,
        !is_target(None, raw),
        !valid_utf8(raw) ==> !is_target(Some(reported), raw),
{
    encode_utf8_valid_utf8(name);
    encode_utf8_decode_utf8(name);
}

} // verus!
