//! The steps of the backend's operations.

use std::time::Duration;

use vstd::prelude::*;
use vstd::utf8::*;

use crate::backend::{adapter_views, AdapterInfo, AdapterView};
use crate::duration::{duration_nanos, seconds};
use crate::error::{failure, Error, ErrorView, NsErrorWrapper, OsErrorView};
use crate::platform::ios::configuration::{
    apply_error,
    build_ssid_only_configuration,
    dropped,
    map_apply_received,
    map_get_configured_received,
    ssid_error,
    ssid_text,
    ConfigurationView,
    HotspotConfiguration,
};
use crate::text::{has_text, lists_text, same_text};
use crate::types::{ssid_display, AdapterId, Ssid, VisibleNetwork};

verus! {

broadcast use vstd::string::group_string_axioms;

/// The single synthetic adapter id reported by `list_adapters`.
/// iOS exposes only the system-managed Wi-Fi interface; this is the BSD name
/// conventionally assigned to it.
pub const IOS_ADAPTER_ID: &'static str = "en0";

/// The name of the synthetic adapter.
pub const IOS_ADAPTER_NAME: &'static str = "Wi-Fi";

/// Bound on waits for the configured SSIDs. The OS usually answers in
/// milliseconds; if the completion block never fires (e.g. mid-suspend or an
/// iOS-side bug) we surface `Error::Timeout` rather than hang.
pub fn probe_timeout() -> (r: Duration)
    ensures
        duration_nanos(r) == 5_000_000_000,
{
    seconds(5)
}

/// The only adapter there is.
pub fn list_adapters() -> (r: Vec<AdapterInfo>)
    ensures
        adapter_views(r@) == seq![AdapterView { id: IOS_ADAPTER_ID@, name: IOS_ADAPTER_NAME@ }],
        r@.len() == 1 && r@[0]@.id == "en0"@ && r@[0]@.name == "Wi-Fi"@,
{
    let mut out: Vec<AdapterInfo> = Vec::new();
    out.push(AdapterInfo { id: AdapterId::new(IOS_ADAPTER_ID), name: IOS_ADAPTER_NAME.to_owned() });
    assert(adapter_views(out@) =~= seq![
        AdapterView { id: IOS_ADAPTER_ID@, name: IOS_ADAPTER_NAME@ },
    ]);
    out
}

/// Whether `adapter` is the synthetic adapter.
///
/// # Errors
///
/// Returns `Error::AdapterNotFound(_)` for any other.
pub fn check_adapter(adapter: &AdapterId) -> (r: Result<(), Error>)
    ensures
        failure(r) == (if adapter@ == IOS_ADAPTER_ID@ {
            None
        } else {
            Some(ErrorView::AdapterNotFound(adapter@))
        }),
        r is Ok <==> adapter@ == "en0"@,
{
    if same_text(adapter.as_str(), IOS_ADAPTER_ID) {
        Ok(())
    } else {
        Err(Error::AdapterNotFound(adapter.to_string()))
    }
}

/// How a connect ends.
#[derive(Debug)]
pub struct ConnectEnd {
    /// Whether the configuration is removed first, as well as that goes.
    pub remove: bool,
    pub result: Result<(), Error>,
}

/// How a connect ends: `waited` is what the completion handler reported, or
/// nothing when it did not come in time. An apply cannot be cancelled, so one
/// that did not come in time is cleaned up after, and none else is.
pub fn finish_connect(
    waited: Option<Option<Option<NsErrorWrapper>>>,
    timeout: Duration,
) -> (r: ConnectEnd)
    ensures
        r.remove <==> waited is None,
        failure(r.result) == (match waited {
            None => Some(ErrorView::Timeout(timeout)),
            Some(received) => apply_error(received),
        }),
{
    match waited {
        None => ConnectEnd { remove: true, result: Err(Error::Timeout(timeout)) },
        Some(received) => ConnectEnd { remove: false, result: map_apply_received(received) },
    }
}

/// What a probe for a configured SSID says: whether it is configured, or what
/// went wrong. The probe did not come back in time, its handler was dropped, or
/// the SSID is not UTF-8, in this order.
pub open spec fn probe_result(
    probe: Option<Option<Vec<String>>>,
    ssid: Seq<u8>,
    limit: Duration,
) -> Result<bool, ErrorView> {
    match probe {
        None => Err(ErrorView::Timeout(limit)),
        Some(None) => Err(dropped("getConfiguredSSIDs"@)),
        Some(Some(configured)) => match ssid_error(ssid) {
            Some(e) => Err(e),
            None => Ok(lists_text(configured@, decode_utf8(ssid))),
        },
    }
}

/// Whether a profile for `ssid` exists, from a probe with that time limit.
/// `remove_profile` reports this once the configuration is removed.
///
/// # Errors
///
/// Returns `Error::Timeout(limit)` if the probe did not come back, `Error::Os(_)`
/// if its handler was dropped, and `Error::Unsupported(_)` if the SSID is not
/// UTF-8.
pub fn was_present(probe: Option<Option<Vec<String>>>, ssid: &Ssid, limit: Duration) -> (r: Result<
    bool,
    Error,
>)
    ensures
        match probe_result(probe, ssid@, limit) {
            Ok(present) => r == Ok::<bool, Error>(present),
            Err(e) => failure(r) == Some(e),
        },
{
    match probe {
        None => Err(Error::Timeout(limit)),
        Some(received) => match map_get_configured_received(received) {
            Err(e) => Err(e),
            Ok(configured) => match ssid_text(ssid) {
                Err(e) => Err(e),
                Ok(text) => Ok(has_text(&configured, text)),
            },
        },
    }
}

/// What to apply for a connect with stored credentials, from a probe with that
/// time limit.
///
/// # Errors
///
/// Fails as [`was_present`], and with `Error::NoStoredCredentials(_)` if there is
/// no profile.
pub fn stored_configuration(
    probe: Option<Option<Vec<String>>>,
    ssid: &Ssid,
    limit: Duration,
) -> (r: Result<HotspotConfiguration, Error>)
    ensures
        match probe_result(probe, ssid@, limit) {
            Ok(true) => r is Ok && r->Ok_0@ == (ConfigurationView {
                ssid: decode_utf8(ssid@),
                passphrase: None,
            }),
            Ok(false) => failure(r) == Some(ErrorView::NoStoredCredentials(ssid_display(ssid@))),
            Err(e) => failure(r) == Some(e),
        },
{
    match was_present(probe, ssid, limit) {
        Err(e) => Err(e),
        Ok(false) => Err(Error::NoStoredCredentials(ssid.to_string())),
        Ok(true) => build_ssid_only_configuration(ssid),
    }
}

/// iOS has no scan.
///
/// # Errors
///
/// Returns `Error::AdapterNotFound(_)` for an unknown adapter and
/// `Error::Unsupported(_)` for the known one.
pub fn list_visible_networks(adapter: &AdapterId) -> (r: Result<Vec<VisibleNetwork>, Error>)
    ensures
        failure(r) == Some(
            if adapter@ == IOS_ADAPTER_ID@ {
                ErrorView::Unsupported("scan not available on ios"@)
            } else {
                ErrorView::AdapterNotFound(adapter@)
            },
        ),
{
    match check_adapter(adapter) {
        Ok(()) => Err(Error::Unsupported("scan not available on ios")),
        Err(e) => Err(e),
    }
}

/// A profile counts as present exactly when the probe came back with a list that
/// holds the SSID's text; a late or dropped probe and an SSID that is no text are
/// errors.
pub proof fn presence_goes_by_the_list(
    configured: Vec<String>,
    ssid: Seq<u8>,
    name: Seq<char>,
    limit: Duration,
)
    ensures
        probe_result(None, ssid, limit) == Err::<bool, ErrorView>(ErrorView::Timeout(limit)),
        probe_result(Some(None), ssid, limit) == Err::<bool, ErrorView>(
            ErrorView::Os(OsErrorView::BlockDropped("getConfiguredSSIDs"@)),
        ),
        probe_result(Some(Some(configured)), encode_utf8(name), limit) == Ok::<bool, ErrorView>(
            exists|i: int| 0 <= i < configured@.len() && (#[trigger] configured@[i])@ == name,
        ),
        !valid_utf8(ssid) ==> probe_result(Some(Some(configured)), ssid, limit) == Err::<
            bool,
            ErrorView,
        >(ErrorView::Unsupported("ios backend requires utf-8 ssid (no public api for raw bytes)"@)),
{
    encode_utf8_valid_utf8(name);
    encode_utf8_decode_utf8(name);
}

} // verus!
