//! What a `WifiNetworkSuggestion` or a `WifiNetworkSpecifier` is built from.

use vstd::prelude::*;
use vstd::utf8::*;

use crate::error::{failure, Error, ErrorView};
use crate::types::{Credentials, Ssid};

verus! {

broadcast use vstd::string::group_string_axioms;

/// What the builder of a suggestion or a specifier is given.
pub struct NetworkRecipe {
    /// `setSsid`.
    pub ssid: String,
    /// `setWpa2Passphrase`, unless the network is open.
    pub passphrase: Option<String>,
}

/// What a [`NetworkRecipe`] says.
pub struct RecipeView {
    pub ssid: Seq<char>,
    pub passphrase: Option<Seq<char>>,
}

impl View for NetworkRecipe {
    type V = RecipeView;

    open spec fn view(&self) -> RecipeView {
        RecipeView {
            ssid: self.ssid@,
            passphrase: match self.passphrase {
                Some(p) => Some(p@),
                None => None,
            },
        }
    }
}

/// The error for an SSID that is not UTF-8, which the builders cannot take.
pub open spec fn ssid_error(ssid: Seq<u8>) -> Option<ErrorView> {
    if valid_utf8(ssid) {
        None
    } else {
        Some(ErrorView::Unsupported("non-UTF8 SSIDs not supported on Android"@))
    }
}

/// The SSID as text.
///
/// # Errors
///
/// Returns `Error::Unsupported(_)` if the SSID is not UTF-8.
pub fn ssid_text(ssid: &Ssid) -> (r: Result<&str, Error>)
    ensures
        failure(r) == ssid_error(ssid@),
        r matches Ok(s) ==> s@ == decode_utf8(ssid@),
{
    match ssid.as_str() {
        Some(s) => Ok(s),
        None => Err(Error::Unsupported("non-UTF8 SSIDs not supported on Android")),
    }
}

/// What to build for an SSID and credentials.
///
/// # Errors
///
/// Returns `Error::Unsupported(_)` if the SSID is not UTF-8.
pub fn build_suggestion(ssid: &Ssid, credentials: &Credentials) -> (r: Result<NetworkRecipe, Error>)
    ensures
        failure(r) == ssid_error(ssid@),
        r matches Ok(recipe) ==> recipe@ == (RecipeView {
            ssid: decode_utf8(ssid@),
            passphrase: credentials@,
        }),
{
    match ssid_text(ssid) {
        Ok(s) => {
            let passphrase = match credentials.passphrase() {
                Some(p) => Some(p.to_owned()),
                None => None,
            };
            Ok(NetworkRecipe { ssid: s.to_owned(), passphrase })
        },
        Err(e) => Err(e),
    }
}

/// An SSID is refused exactly when it is not text, and a recipe says what it holds.
pub proof fn only_texts_are_suggested(ssid: Seq<u8>, recipe: NetworkRecipe)
    ensures
        ssid_error(ssid) is None <==> valid_utf8(ssid),
        ssid_error(ssid) matches Some(e) ==> e == ErrorView::Unsupported(
            "non-UTF8 SSIDs not supported on Android"@,
        ),
        recipe@.ssid == recipe.ssid@,
        recipe.passphrase is None ==> recipe@.passphrase is None,
        recipe.passphrase is Some ==> recipe@.passphrase == Some(recipe.passphrase->0@),
{
}

} // verus!
