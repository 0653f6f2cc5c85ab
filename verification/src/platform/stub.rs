//! A backend for platforms without one.

use vstd::prelude::*;

use crate::backend::AdapterInfo;
use crate::error::{Error, ErrorView};
use crate::types::{AdapterId, ConnectOptions, Credentials, ScanOptions, Ssid, VisibleNetwork};

verus! {

broadcast use vstd::string::group_string_axioms;

/// Backend that returns `Error::Unsupported(reason)` for every operation.
#[derive(Debug)]
pub struct StubBackend {
    reason: &'static str,
}

impl View for StubBackend {
    type V = Seq<char>;

    closed spec fn view(&self) -> Seq<char> {
        self.reason@
    }
}

impl StubBackend {
    pub fn new(reason: &'static str) -> (r: StubBackend)
        ensures
            r@ == reason@,
    {
        StubBackend { reason }
    }

    pub fn list_adapters(&self) -> (r: Result<Vec<AdapterInfo>, Error>)
        ensures
            r matches Err(e) && e@ == ErrorView::Unsupported(self@),
    {
        Err(Error::Unsupported(self.reason))
    }

    pub fn connect(
        &self,
        _adapter: &AdapterId,
        _ssid: &Ssid,
        _credentials: &Credentials,
        _options: &ConnectOptions,
    ) -> (r: Result<(), Error>)
        ensures
            r matches Err(e) && e@ == ErrorView::Unsupported(self@),
    {
        Err(Error::Unsupported(self.reason))
    }

    pub fn connect_with_stored_credentials(
        &self,
        _adapter: &AdapterId,
        _ssid: &Ssid,
        _options: &ConnectOptions,
    ) -> (r: Result<(), Error>)
        ensures
            r matches Err(e) && e@ == ErrorView::Unsupported(self@),
    {
        Err(Error::Unsupported(self.reason))
    }

    pub fn disconnect(&self, _adapter: &AdapterId, _ssid: &Ssid) -> (r: Result<(), Error>)
        ensures
            r matches Err(e) && e@ == ErrorView::Unsupported(self@),
    {
        Err(Error::Unsupported(self.reason))
    }

    pub fn remove_profile(&self, _adapter: &AdapterId, _ssid: &Ssid) -> (r: Result<bool, Error>)
        ensures
            r matches Err(e) && e@ == ErrorView::Unsupported(self@),
    {
        Err(Error::Unsupported(self.reason))
    }

    pub fn list_visible_networks(&self, _adapter: &AdapterId, _options: &ScanOptions) -> (r: Result<
        Vec<VisibleNetwork>,
        Error,
    >)
        ensures
            r matches Err(e) && e@ == ErrorView::Unsupported("scan not implemented on this platform"@),
    {
        Err(Error::Unsupported("scan not implemented on this platform"))
    }
}

} // verus!
