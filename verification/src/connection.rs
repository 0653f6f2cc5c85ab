//! The handle of an established connection.

use std::fmt::{Debug, Formatter};

use vstd::prelude::*;

use crate::formatting::written;

verus! {

/// What a connection keeps alive until it is dropped.
pub trait Guard: Send + Sync {

}

impl<G: Send + Sync> Guard for G {

}

/// An established connection. Dropping it drops the platform guard that it
/// carries, whose own `Drop` performs the teardown.
pub struct WifiConnection<G = Box<dyn Guard>> {
    inner: Option<G>,
}

impl<G> WifiConnection<G> {
    /// The guard that the handle carries, if it carries one.
    pub closed spec fn guard(self) -> Option<G> {
        self.inner
    }

    /// Whether the handle carries no guard.
    pub open spec fn is_inert(self) -> bool {
        self.guard() is None
    }

    /// Wrap a platform guard whose own `Drop` performs the teardown.
    pub fn new(guard: G) -> (r: WifiConnection<G>)
        ensures
            r.guard() == Some(guard),
    {
        WifiConnection { inner: Some(guard) }
    }
}

impl WifiConnection {
    /// An inert handle for platforms where the OS owns the connection.
    pub fn inert() -> (r: WifiConnection)
        ensures
            r.is_inert(),
    {
        WifiConnection { inner: None }
    }
}

impl<G> Debug for WifiConnection<G> {
    /// The type's name; the guard has no printed form.
    fn fmt(&self, f: &mut Formatter<'_>) -> (r: Result<(), std::fmt::Error>)
        ensures
            r is Ok ==> written(*final(f)) == written(*old(f)) + "WifiConnection"@,
    {
        f.write_str("WifiConnection")
    }
}

} // verus!
