//! What an `NEHotspotConfiguration` is built from, and what the completion
//! handlers of its manager report.

use vstd::prelude::*;
use vstd::utf8::*;

use crate::error::{
    failure,
    BlockChannelDropped,
    Error,
    ErrorView,
    NsErrorWrapper,
    OsError,
    OsErrorView,
};
use crate::platform::ios::error_map::{hotspot_error, map_ne_error, MappedError};
use crate::types::{Credentials, Ssid};

verus! {

broadcast use vstd::string::group_string_axioms;

/// What a hotspot configuration is initialised with. With a passphrase it is for
/// WPA/WPA2 Personal; WEP is not supported.
pub struct HotspotConfiguration {
    pub ssid: String,
    pub passphrase: Option<String>,
}

/// What a [`HotspotConfiguration`] says.
pub struct ConfigurationView {
    pub ssid: Seq<char>,
    pub passphrase: Option<Seq<char>>,
}

impl View for HotspotConfiguration {
    type V = ConfigurationView;

    open spec fn view(&self) -> ConfigurationView {
        ConfigurationView {
            ssid: self.ssid@,
            passphrase: match self.passphrase {
                Some(p) => Some(p@),
                None => None,
            },
        }
    }
}

/// The error for an SSID that is not UTF-8: a configuration only accepts text.
pub open spec fn ssid_error(ssid: Seq<u8>) -> Option<ErrorView> {
    if valid_utf8(ssid) {
        None
    } else {
        Some(ErrorView::Unsupported("ios backend requires utf-8 ssid (no public api for raw bytes)"@))
    }
}

/// The SSID as text.
///
/// # Errors
///
/// Returns `Error::Unsupported(_)` if the SSID can't be expressed as UTF-8.
pub fn ssid_text(ssid: &Ssid) -> (r: Result<&str, Error>)
    ensures
        failure(r) == ssid_error(ssid@),
        r matches Ok(s) ==> s@ == decode_utf8(ssid@),
{
    match ssid.as_str() {
        Some(s) => Ok(s),
        None => Err(
            Error::Unsupported("ios backend requires utf-8 ssid (no public api for raw bytes)"),
        ),
    }
}

/// What to configure for an SSID and credentials.
///
/// # Errors
///
/// Returns `Error::Unsupported(_)` if the SSID can't be expressed as UTF-8.
pub fn build_configuration(ssid: &Ssid, credentials: &Credentials) -> (r: Result<
    HotspotConfiguration,
    Error,
>)
    ensures
        failure(r) == ssid_error(ssid@),
        r matches Ok(c) ==> c@ == (ConfigurationView {
            ssid: decode_utf8(ssid@),
            passphrase: credentials@,
        }),
{
    match ssid_text(ssid) {
        Ok(s) => {
            let passphrase = match credentials.passphrase() {
                Some(p) => Some(p.to_owned()),
                None => None,
            };
            Ok(HotspotConfiguration { ssid: s.to_owned(), passphrase })
        },
        Err(e) => Err(e),
    }
}

/// An SSID-only configuration, used for re-applying a previously-installed
/// profile (the stored-credentials path).
///
/// # Errors
///
/// Returns `Error::Unsupported(_)` if the SSID can't be expressed as UTF-8.
pub fn build_ssid_only_configuration(ssid: &Ssid) -> (r: Result<HotspotConfiguration, Error>)
    ensures
        failure(r) == ssid_error(ssid@),
        r matches Ok(c) ==> c@ == (ConfigurationView {
            ssid: decode_utf8(ssid@),
            passphrase: None,
        }),
{
    match ssid_text(ssid) {
        Ok(s) => Ok(HotspotConfiguration { ssid: s.to_owned(), passphrase: None }),
        Err(e) => Err(e),
    }
}

/// The error for a completion block that went away without being called.
pub open spec fn dropped(operation: Seq<char>) -> ErrorView {
    ErrorView::Os(OsErrorView::BlockDropped(operation))
}

/// What the completion of an apply comes to.
pub open spec fn apply_error(received: Option<Option<NsErrorWrapper>>) -> Option<ErrorView> {
    match received {
        None => Some(dropped("apply"@)),
        Some(None) => None,
        Some(Some(err)) => hotspot_error(err@),
    }
}

/// Translate what the completion handler of an apply reported (the `NSError`, if
/// there was one) into a typed result; `None` if the handler was dropped without
/// being called.
pub fn map_apply_received(received: Option<Option<NsErrorWrapper>>) -> (r: Result<(), Error>)
    ensures
        failure(r) == apply_error(received),
{
    match received {
        None => Err(Error::Os(Box::new(OsError::BlockDropped(BlockChannelDropped("apply"))))),
        Some(None) => Ok(()),
        Some(Some(err)) => match map_ne_error(err) {
            MappedError::Surface(e) => Err(e),
            MappedError::AlreadyAssociated => Ok(()),
        },
    }
}

/// Translate what the completion handler of a query for the configured SSIDs
/// reported; `None` if the handler was dropped without being called.
pub fn map_get_configured_received(received: Option<Vec<String>>) -> (r: Result<Vec<String>, Error>)
    ensures
        match received {
            None => failure(r) == Some(dropped("getConfiguredSSIDs"@)),
            Some(ssids) => r == Ok::<Vec<String>, Error>(ssids),
        },
{
    match received {
        None => Err(
            Error::Os(Box::new(OsError::BlockDropped(BlockChannelDropped("getConfiguredSSIDs")))),
        ),
        Some(ssids) => Ok(ssids),
    }
}

/// An apply succeeds exactly when its handler was called without an error, or with
/// the one that says that the device is on the network already.
pub proof fn applies_succeed_without_an_error(received: Option<Option<NsErrorWrapper>>)
    ensures
        apply_error(received) is None <==> received is Some && (received->0 is None || (
        received->0->0.domain@ == "NEHotspotConfigurationErrorDomain"@ && received->0->0.code
            == 13)),
        received is None ==> apply_error(received) == Some(
            ErrorView::Os(OsErrorView::BlockDropped("apply"@)),
        ),
        received is Some && received->0 is Some ==> apply_error(received) == hotspot_error(
            received->0->0@,
        ),
{
}

/// An SSID is refused exactly when it is not text, and a configuration says what it
/// holds.
pub proof fn only_texts_are_configured(ssid: Seq<u8>, configuration: HotspotConfiguration)
    ensures
        ssid_error(ssid) is None <==> valid_utf8(ssid),
        ssid_error(ssid) matches Some(e) ==> e == ErrorView::Unsupported(
            "ios backend requires utf-8 ssid (no public api for raw bytes)"@,
        ),
        configuration@.ssid == configuration.ssid@,
        configuration.passphrase is None ==> configuration@.passphrase is None,
        configuration.passphrase is Some ==> configuration@.passphrase == Some(
            configuration.passphrase->0@,
        ),
{
}

/// A dropped handler is an error that names the operation.
pub proof fn dropped_handlers_name_the_operation(operation: Seq<char>)
    ensures
        dropped(operation) == ErrorView::Os(OsErrorView::BlockDropped(operation)),
{
}

} // verus!
