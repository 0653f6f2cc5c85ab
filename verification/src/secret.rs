//! Passphrases, kept in memory that is wiped when they are dropped.

use std::fmt::{Debug, Formatter};

use secrecy::{ExposeSecret, SecretString};
use vstd::prelude::*;

use crate::formatting::written;

verus! {

broadcast use vstd::string::group_string_axioms;

/// A passphrase, held in a `secrecy::SecretString`: its buffer is wiped on
/// drop and its `Debug` form does not show the text.
#[verifier::external_body]
pub struct Passphrase {
    inner: SecretString,
}

/// The text that a passphrase holds.
pub uninterp spec fn passphrase_text(p: Passphrase) -> Seq<char>;

impl View for Passphrase {
    type V = Seq<char>;

    open spec fn view(&self) -> Seq<char> {
        passphrase_text(*self)
    }
}

impl Passphrase {
    /// Wraps `SecretString::new`: the secret holds the text that it was made with.
    #[verifier::external_body]
    pub(crate) fn new(text: String) -> (p: Passphrase)
        ensures
            passphrase_text(p) == text@,
    {
        Passphrase { inner: SecretString::new(text.into_boxed_str()) }
    }

    /// Wraps `ExposeSecret::expose_secret`: hands out the text that the secret holds.
    #[verifier::external_body]
    pub fn expose_secret(&self) -> (text: &str)
        ensures
            text@ == passphrase_text(*self),
    {
        self.inner.expose_secret()
    }
}

impl Clone for Passphrase {
    /// Wraps `SecretString::clone`: the copy holds the same text.
    #[verifier::external_body]
    fn clone(&self) -> (p: Passphrase)
        ensures
            passphrase_text(p) == passphrase_text(*self),
    {
        Passphrase { inner: self.inner.clone() }
    }
}

impl Debug for Passphrase {
    /// The same text for every passphrase.
    fn fmt(&self, f: &mut Formatter<'_>) -> (r: Result<(), std::fmt::Error>)
        ensures
            r is Ok ==> written(*final(f)) == written(*old(f)) + "SecretBox<str>([REDACTED])"@,
    {
        f.write_str("SecretBox<str>([REDACTED])")
    }
}

} // verus!
