//! `disconnect`: a no-op when the interface is connected to a different SSID
//! than the one the caller asked for.

use vstd::prelude::*;

use crate::error::{failure, Error, ErrorView, OsErrorView};
use crate::platform::windows::scan::{dot11_ssid, ssid_from_dot11, Dot11Ssid};
use crate::platform::windows::util::{win32_error, win32_failure, ERROR_NOT_FOUND};
use crate::scan_rollup::optional_ssid;
use crate::types::Ssid;

verus! {

broadcast use vstd::string::group_string_axioms;

/// The SSID that an interface is associated with, or why that is not known.
pub open spec fn current_association(code: u32, association: Option<Dot11Ssid>) -> Result<
    Option<Seq<u8>>,
    ErrorView,
> {
    if code == ERROR_NOT_FOUND {
        Ok(None)
    } else if code != 0 {
        Err(win32_failure("WlanQueryInterface(current_connection)"@, code))
    } else {
        match association {
            None => Ok(None),
            Some(ssid) => Ok(dot11_ssid(ssid)),
        }
    }
}

/// What a lookup of the association says.
pub open spec fn association_view(r: Result<Option<Ssid>, Error>) -> Result<
    Option<Seq<u8>>,
    ErrorView,
> {
    match r {
        Ok(ssid) => Ok(optional_ssid(ssid)),
        Err(e) => Err(e@),
    }
}

/// The SSID that an interface is associated with, from the status of
/// `WlanQueryInterface` and the association that it handed out. On an adapter
/// without a connection the query reports `ERROR_NOT_FOUND`, which is no error.
pub fn current_ssid(code: u32, association: Option<Dot11Ssid>) -> (r: Result<Option<Ssid>, Error>)
    ensures
        association_view(r) == current_association(code, association),
{
    if code == ERROR_NOT_FOUND {
        return Ok(None);
    }
    if code != 0 {
        return Err(win32_error("WlanQueryInterface(current_connection)", code));
    }
    match association {
        None => Ok(None),
        Some(ssid) => Ok(ssid_from_dot11(&ssid)),
    }
}

/// Whether to issue `WlanDisconnect`: only when the interface is associated with
/// the SSID that the caller asked for.
pub fn run_disconnect_blocking(
    code: u32,
    association: Option<Dot11Ssid>,
    ssid: &Ssid,
) -> (r: Result<bool, Error>)
    ensures
        match current_association(code, association) {
            Ok(current) => r == Ok::<bool, Error>(current == Some(ssid@)),
            Err(e) => failure(r) == Some(e),
        },
{
    match current_ssid(code, association) {
        Ok(Some(current)) => Ok(current.same_as(ssid)),
        Ok(None) => Ok(false),
        Err(e) => Err(e),
    }
}

/// An interface counts as associated exactly when the query succeeded and handed
/// out a name; a query that found nothing is no error, and any other failure is
/// reported with its status.
pub proof fn associations_are_read_or_absent(code: u32, association: Option<Dot11Ssid>)
    ensures
        match current_association(code, association) {
            Ok(Some(ssid)) => code == 0 && association is Some && 0 < association->0.length <= 32
                && ssid == association->0.octets@.take(association->0.length as int),
            Ok(None) => code == 0x490 || (code == 0 && !(association is Some && 0
                < association->0.length <= 32)),
            Err(e) => code != 0 && code != 0x490 && e == ErrorView::Os(
                OsErrorView::Win32 { function: "WlanQueryInterface(current_connection)"@, code },
            ),
        },
{
}

/// What a lookup of the association came to is seen as it is.
pub proof fn association_views_are_faithful(ssid: Ssid, e: Error)
    ensures
        association_view(Ok(Some(ssid))) == Ok::<Option<Seq<u8>>, ErrorView>(Some(ssid@)),
        association_view(Ok(None)) == Ok::<Option<Seq<u8>>, ErrorView>(None),
        association_view(Err(e)) == Err::<Option<Seq<u8>>, ErrorView>(e@),
{
}

} // verus!
