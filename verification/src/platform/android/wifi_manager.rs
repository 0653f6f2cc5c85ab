//! What `WifiManager.getConnectionInfo()` says.

use vstd::prelude::*;

use crate::text::{chars_of, range_string, same_text, unquoted, unquoting_takes_one_pair};

verus! {

broadcast use vstd::string::group_string_axioms;

/// A text without the quotes around it.
pub fn strip_quotes(s: &str) -> (r: String)
    ensures
        r@ == unquoted(s@),
{
    let chars = chars_of(s);
    if chars.len() >= 2 && chars[0] == '"' && chars[chars.len() - 1] == '"' {
        range_string(&chars, 1, chars.len() - 1)
    } else {
        s.to_owned()
    }
}

/// The SSID that the connection info reports, if the device is associated and
/// the app may know: Android reports `<unknown ssid>` when it may not.
pub open spec fn reported_ssid(text: Option<Seq<char>>) -> Option<Seq<char>> {
    match text {
        None => None,
        Some(s) => if s == "<unknown ssid>"@ {
            None
        } else {
            Some(unquoted(s))
        },
    }
}

/// The text, if there is one.
pub open spec fn optional_text(text: Option<&str>) -> Option<Seq<char>> {
    match text {
        Some(s) => Some(s@),
        None => None,
    }
}

/// Returns the SSID currently reported by `WifiManager.getConnectionInfo()`,
/// or `None` if the device is not associated. `info` is what `getSSID()`
/// returned, if there was anything to ask.
///
/// Android wraps the SSID in literal double quotes when returning it
/// here ("`MySSID`"), and inserts the literal string `<unknown ssid>` when
/// the host app lacks the location permission.
pub fn current_ssid(info: Option<&str>) -> (r: Option<String>)
    ensures
        reported_ssid(optional_text(info)) == (match r {
            Some(text) => Some(text@),
            None => None,
        }),
{
    match info {
        None => None,
        Some(s) => {
            if same_text(s, "<unknown ssid>") {
                return None;
            }
            Some(strip_quotes(s))
        },
    }
}

/// A quoted name is reported without its quotes, and the text that stands for an
/// unknown network not at all.
pub proof fn reported_names_lose_their_quotes(name: Seq<char>)
    ensures
        reported_ssid(Some(seq!['"'] + name + seq!['"'])) == Some(name),
        (name.len() < 2 || name[0] != '"' || name.last() != '"') && name != "<unknown ssid>"@
            ==> reported_ssid(Some(name)) == Some(name),
        reported_ssid(Some("<unknown ssid>"@)) is None,
        reported_ssid(None) is None,
{
    reveal_strlit("<unknown ssid>");
    unquoting_takes_one_pair(name, name);
    let quoted = seq!['"'] + name + seq!['"'];
    assert(quoted[0] != "<unknown ssid>"@[0]);
}

/// A text that is there is seen as its characters.
pub proof fn optional_texts_are_faithful(text: &str)
    ensures
        optional_text(Some(text)) == Some(text@),
        optional_text(None) is None,
{
}

} // verus!
