//! `list_adapters`: what `WlanEnumInterfaces` reports.

use vstd::prelude::*;

use crate::backend::{adapter_views, AdapterInfo, AdapterView};
use crate::error::{failure, Error};
use crate::platform::windows::util::{check_win32, guid_text, guid_to_adapter_id, win32_failure, Guid};
use crate::utf16::{decode_utf16, encode_utf16, lemma_no_nul_unit, utf16_round_trips, utf16_text};

verus! {

broadcast use vstd::string::group_string_axioms;

/// How many units stand before the first NUL, or in the whole buffer without one.
pub open spec fn text_length(buf: Seq<u16>) -> int
    decreases buf.len(),
{
    if buf.len() == 0 || buf[0] == 0 {
        0
    } else {
        1 + text_length(buf.skip(1))
    }
}

proof fn lemma_text_length(buf: Seq<u16>, n: int)
    requires
        0 <= n <= buf.len(),
        forall|k: int| 0 <= k < n ==> #[trigger] buf[k] != 0,
        n == buf.len() || buf[n] == 0,
    ensures
        text_length(buf) == n,
    decreases n,
{
    if n > 0 {
        let rest = buf.skip(1);
        assert(forall|k: int| 0 <= k < n - 1 ==> #[trigger] rest[k] == buf[k + 1]);
        lemma_text_length(rest, n - 1);
    }
}

/// The number of units before the first NUL.
pub fn units_before_nul(buf: &[u16]) -> (r: usize)
    ensures
        r == text_length(buf@),
        r <= buf@.len(),
{
    let mut n: usize = 0;
    while n < buf.len() && buf[n] != 0
        invariant
            n <= buf@.len(),
            forall|k: int| 0 <= k < n ==> #[trigger] buf@[k] != 0,
        decreases buf@.len() - n,
    {
        n = n + 1;
    }
    proof {
        lemma_text_length(buf@, n as int);
    }
    n
}

/// Decode a UTF-16 buffer (NUL-terminated) into a Rust `String`.
///
/// Stops at the first NUL or at the end of the buffer, whichever comes
/// first. Invalid surrogate pairs are replaced with `U+FFFD`.
pub fn utf16_to_string(buf: &[u16]) -> (r: String)
    ensures
        r@ == decode_utf16(buf@.take(text_length(buf@))),
{
    let len: usize = units_before_nul(buf);
    utf16_text(buf, len)
}

/// A text without NUL comes back from its NUL-terminated form, whatever follows.
pub proof fn wide_text_round_trips(s: Seq<char>, rest: Seq<u16>)
    requires
        forall|i: int| 0 <= i < s.len() ==> s[i] != '\0',
    ensures
        ({
            let buf = encode_utf16(s).push(0) + rest;
            decode_utf16(buf.take(text_length(buf))) == s
        }),
{
    let units = encode_utf16(s);
    let buf = units.push(0) + rest;
    lemma_no_nul_unit(s);
    assert forall|k: int| 0 <= k < units.len() implies #[trigger] buf[k] != 0 by {
        assert(buf[k] == units[k]);
    }
    lemma_text_length(buf, units.len() as int);
    assert(buf.take(units.len() as int) =~= units);
    utf16_round_trips(s);
}

/// An entry of the interface list.
#[derive(Debug)]
pub struct InterfaceEntry {
    pub guid: Guid,
    /// `strInterfaceDescription`, NUL-terminated UTF-16.
    pub description: Vec<u16>,
}

/// The adapter of an interface.
pub open spec fn interface_adapter(entry: InterfaceEntry) -> AdapterView {
    AdapterView {
        id: guid_text(entry.guid@),
        name: decode_utf16(entry.description@.take(text_length(entry.description@))),
    }
}

/// The adapters of interfaces, in order.
pub open spec fn interface_adapters(entries: Seq<InterfaceEntry>) -> Seq<AdapterView> {
    entries.map_values(|e: InterfaceEntry| interface_adapter(e))
}

/// Turns the interface list into adapters.
pub fn collect_adapters(entries: &Vec<InterfaceEntry>) -> (r: Vec<AdapterInfo>)
    ensures
        adapter_views(r@) == interface_adapters(entries@),
        r@.len() == entries@.len(),
        forall|k: int|
            0 <= k < entries@.len() ==> (#[trigger] r@[k])@.id == guid_text(entries@[k].guid@),
        forall|k: int|
            0 <= k < entries@.len() ==> (#[trigger] r@[k])@.name == decode_utf16(
                entries@[k].description@.take(text_length(entries@[k].description@)),
            ),
{
    let mut out: Vec<AdapterInfo> = Vec::new();
    let mut i: usize = 0;
    while i < entries.len()
        invariant
            i <= entries@.len(),
            out@.len() == i,
            forall|k: int| 0 <= k < i ==> (#[trigger] out@[k])@ == interface_adapter(entries@[k]),
        decreases entries@.len() - i,
    {
        out.push(
            AdapterInfo {
                id: guid_to_adapter_id(&entries[i].guid),
                name: utf16_to_string(entries[i].description.as_slice()),
            },
        );
        i = i + 1;
    }
    assert(adapter_views(out@) =~= interface_adapters(entries@));
    out
}

/// The Wi-Fi adapters known to the WLAN service, from the status of
/// `WlanEnumInterfaces` and the list that it handed out, if any.
///
/// # Errors
///
/// Returns `Error::Os(_)` if `WlanEnumInterfaces` failed.
pub fn list_adapters(code: u32, entries: Option<Vec<InterfaceEntry>>) -> (r: Result<
    Vec<AdapterInfo>,
    Error,
>)
    ensures
        code != 0 ==> failure(r) == Some(win32_failure("WlanEnumInterfaces"@, code)),
        code == 0 ==> r is Ok && adapter_views(r->Ok_0@) == (match entries {
            Some(list) => interface_adapters(list@),
            None => seq![],
        }),
{
    match check_win32("WlanEnumInterfaces", code) {
        Err(e) => Err(e),
        Ok(()) => match entries {
            Some(list) => Ok(collect_adapters(&list)),
            None => {
                let none: Vec<AdapterInfo> = Vec::new();
                assert(adapter_views(none@) =~= seq![]);
                Ok(none)
            },
        },
    }
}

/// The text of a buffer ends before its first NUL, or at the end of a buffer
/// without one.
pub proof fn texts_end_at_the_first_nul(buf: Seq<u16>)
    ensures
        0 <= text_length(buf) <= buf.len(),
        forall|k: int| 0 <= k < text_length(buf) ==> #[trigger] buf[k] != 0,
        text_length(buf) < buf.len() ==> buf[text_length(buf)] == 0,
    decreases buf.len(),
{
    if buf.len() > 0 && buf[0] != 0 {
        let rest = buf.skip(1);
        texts_end_at_the_first_nul(rest);
        assert forall|k: int| 0 <= k < text_length(buf) implies #[trigger] buf[k] != 0 by {
            if k > 0 {
                assert(rest[k - 1] == buf[k]);
            }
        }
    }
}

/// There are as many adapters as interfaces, and each stands where its interface
/// does: its identifier is the text of the GUID, and its name the description up
/// to the first NUL.
pub proof fn adapters_stand_for_interfaces(entries: Seq<InterfaceEntry>, k: int, n: int)
    requires
        0 <= k < entries.len(),
        0 <= n <= entries[k].description@.len(),
        forall|j: int| 0 <= j < n ==> #[trigger] entries[k].description@[j] != 0,
        n == entries[k].description@.len() || entries[k].description@[n] == 0,
    ensures
        interface_adapters(entries).len() == entries.len(),
        interface_adapters(entries)[k].id == guid_text(entries[k].guid@),
        interface_adapters(entries)[k].name == decode_utf16(entries[k].description@.take(n)),
{
    lemma_text_length(entries[k].description@, n);
}

} // verus!
