//! The synthetic adapter and the in-process suggestion cache.
//!
//! Android does not expose any API to read back a previously-registered
//! suggestion's passphrase, so the cache is the only place it lives after a
//! connect.

use vstd::prelude::*;

use crate::assoc::AssocMap;
use crate::backend::{adapter_views, AdapterInfo, AdapterView};
use crate::error::{failure, Error, ErrorView};
use crate::platform::android::status_codes::{map_remove_status, remove_outcome, RemoveOutcome};
use crate::text::same_text;
use crate::types::{ssid_display, AdapterId, Ssid, SsidSet};

verus! {

broadcast use vstd::string::group_string_axioms;

/// Synthetic adapter id reported on Android.
pub const SYNTHETIC_ADAPTER_ID: &'static str = "wlan0";

/// The name of the synthetic adapter.
pub const SYNTHETIC_ADAPTER_NAME: &'static str = "Wi-Fi";

/// The only adapter there is.
pub fn list_adapters() -> (r: Vec<AdapterInfo>)
    ensures
        adapter_views(r@) == seq![
            AdapterView { id: SYNTHETIC_ADAPTER_ID@, name: SYNTHETIC_ADAPTER_NAME@ },
        ],
        r@.len() == 1 && r@[0]@.id == "wlan0"@ && r@[0]@.name == "Wi-Fi"@,
{
    let mut out: Vec<AdapterInfo> = Vec::new();
    out.push(
        AdapterInfo {
            id: AdapterId::new(SYNTHETIC_ADAPTER_ID),
            name: SYNTHETIC_ADAPTER_NAME.to_owned(),
        },
    );
    assert(adapter_views(out@) =~= seq![
        AdapterView { id: SYNTHETIC_ADAPTER_ID@, name: SYNTHETIC_ADAPTER_NAME@ },
    ]);
    out
}

/// Whether `adapter` is the synthetic adapter.
///
/// # Errors
///
/// Returns `Error::AdapterNotFound(_)` for any other.
pub fn check_adapter(adapter: &AdapterId) -> (r: Result<(), Error>)
    ensures
        failure(r) == (if adapter@ == SYNTHETIC_ADAPTER_ID@ {
            None
        } else {
            Some(ErrorView::AdapterNotFound(adapter@))
        }),
        r is Ok <==> adapter@ == "wlan0"@,
{
    if same_text(adapter.as_str(), SYNTHETIC_ADAPTER_ID) {
        Ok(())
    } else {
        Err(Error::AdapterNotFound(adapter.to_string()))
    }
}

/// Whether the host app has set up the Android context.
///
/// # Errors
///
/// Returns `Error::Unsupported(_)` if the VM or the `Context` is missing.
pub fn require_ndk_context(has_vm: bool, has_context: bool) -> (r: Result<(), Error>)
    ensures
        failure(r) == (if !has_vm {
            Some(ErrorView::Unsupported("ndk-context not initialized"@))
        } else if !has_context {
            Some(ErrorView::Unsupported("ndk-context Context is null"@))
        } else {
            None
        }),
{
    if !has_vm {
        return Err(Error::Unsupported("ndk-context not initialized"));
    }
    if !has_context {
        return Err(Error::Unsupported("ndk-context Context is null"));
    }
    Ok(())
}

/// The suggestions registered by this process, by SSID. `T` stands for the
/// suggestion object.
#[derive(Debug)]
pub struct SuggestionCache<T> {
    profiles: AssocMap<Ssid, T>,
}

impl<T> View for SuggestionCache<T> {
    type V = Map<Seq<u8>, T>;

    closed spec fn view(&self) -> Map<Seq<u8>, T> {
        self.profiles@
    }
}

/// The cache after a disconnect that the OS answered with `status`.
pub open spec fn after_disconnect<T>(
    cache: Map<Seq<u8>, T>,
    ssid: Seq<u8>,
    status: i32,
) -> Map<Seq<u8>, T> {
    if remove_outcome(status) is Ok {
        cache.remove(ssid)
    } else {
        cache
    }
}

/// The cache after a removal that the OS answered with `status`.
pub open spec fn after_remove<T>(
    cache: Map<Seq<u8>, T>,
    ssid: Seq<u8>,
    status: i32,
) -> Map<Seq<u8>, T> {
    if remove_outcome(status) == Ok::<RemoveOutcome, ErrorView>(RemoveOutcome::WasRemoved) {
        cache.remove(ssid)
    } else {
        cache
    }
}

/// What the OS removed is not cached any more, a failed request changes nothing,
/// and no request changes what is cached for another SSID.
pub proof fn removals_are_remembered<T>(
    cache: Map<Seq<u8>, T>,
    ssid: Seq<u8>,
    status: i32,
    other: Seq<u8>,
)
    requires
        other != ssid,
    ensures
        remove_outcome(status) is Ok ==> !after_disconnect(cache, ssid, status).contains_key(ssid),
        remove_outcome(status) == Ok::<RemoveOutcome, ErrorView>(RemoveOutcome::WasRemoved)
            ==> !after_remove(cache, ssid, status).contains_key(ssid),
        remove_outcome(status) is Err ==> after_disconnect(cache, ssid, status) == cache
            && after_remove(cache, ssid, status) == cache,
        after_disconnect(cache, ssid, status).contains_key(other) == cache.contains_key(other),
        after_remove(cache, ssid, status).contains_key(other) == cache.contains_key(other),
        cache.contains_key(other) ==> after_disconnect(cache, ssid, status)[other] == cache[other]
            && after_remove(cache, ssid, status)[other] == cache[other],
{
}

impl<T> SuggestionCache<T> {
    pub fn new() -> (r: SuggestionCache<T>)
        ensures
            r@ == Map::<Seq<u8>, T>::empty(),
    {
        SuggestionCache { profiles: AssocMap::new() }
    }

    /// The cached suggestion for `ssid`, if any.
    pub fn cached_suggestion(&self, ssid: &Ssid) -> (r: Option<&T>)
        ensures
            r is Some <==> self@.contains_key(ssid@),
            r matches Some(t) ==> *t == self@[ssid@],
    {
        self.profiles.get(ssid)
    }

    /// The cached suggestion for a connect with stored credentials.
    ///
    /// # Errors
    ///
    /// Returns `Error::NoStoredCredentials(_)` if there is none.
    pub fn stored_suggestion(&self, ssid: &Ssid) -> (r: Result<&T, Error>)
        ensures
            r is Ok <==> self@.contains_key(ssid@),
            r matches Ok(t) ==> *t == self@[ssid@],
            r matches Err(e) ==> e@ == ErrorView::NoStoredCredentials(ssid_display(ssid@)),
    {
        match self.profiles.get(ssid) {
            Some(t) => Ok(t),
            None => Err(Error::NoStoredCredentials(ssid.to_string())),
        }
    }

    /// Insert or replace the cached suggestion for `ssid`.
    pub fn cache_suggestion(&mut self, ssid: Ssid, suggestion: T)
        ensures
            final(self)@ == old(self)@.insert(ssid@, suggestion),
    {
        self.profiles.insert(ssid, suggestion);
    }

    /// Forget the cached suggestion for `ssid`. Returns `true` if a
    /// suggestion was present.
    pub fn evict_suggestion(&mut self, ssid: &Ssid) -> (r: bool)
        ensures
            final(self)@ == old(self)@.remove(ssid@),
            r == old(self)@.contains_key(ssid@),
    {
        self.profiles.remove(ssid).is_some()
    }

    /// Snapshot of the SSIDs in the cache.
    pub fn cached_suggestion_ssids(&self) -> (r: SsidSet)
        ensures
            r@ == self@.dom(),
    {
        let mut out = SsidSet::new();
        let count: usize = self.profiles.len();
        let ghost keys = self.profiles.keys();
        let mut i: usize = 0;
        while i < count
            invariant
                keys == self.profiles.keys(),
                count == keys.len(),
                i <= count,
                forall|s: Seq<u8>| out@.contains(s) <==> #[trigger] keys.take(i as int).contains(s),
            decreases count - i,
        {
            let (ssid, _suggestion) = self.profiles.entry(i);
            let ghost was = out@;
            let _new = out.insert(ssid.clone());
            proof {
                assert(keys.take(i + 1) =~= keys.take(i as int).push(keys[i as int]));
                assert forall|s: Seq<u8>| out@.contains(s) <==> #[trigger] keys.take(
                    i + 1,
                ).contains(s) by {
                    let before = keys.take(i as int);
                    let after = keys.take(i + 1);
                    if before.contains(s) {
                        let k = choose|k: int| 0 <= k < before.len() && before[k] == s;
                        assert(after[k] == s);
                    }
                    if after.contains(s) {
                        let k = choose|k: int| 0 <= k < after.len() && after[k] == s;
                        if k < i {
                            assert(before[k] == s);
                        }
                    }
                    if s == keys[i as int] {
                        assert(after[i as int] == s);
                    }
                }
            }
            i = i + 1;
        }
        assert(keys.take(keys.len() as int) =~= keys);
        assert(out@ =~= self@.dom()) by {
            assert forall|s: Seq<u8>| out@.contains(s) <==> self@.dom().contains(s) by {
                assert(out@.contains(s) <==> keys.contains(s));
            }
        }
        out
    }

    /// Completes a disconnect that the OS answered with `status`. Both a removal
    /// and nothing to remove are a success: the device is not connected to `ssid`
    /// any more.
    pub fn finish_disconnect(&mut self, ssid: &Ssid, status: i32) -> (r: Result<(), Error>)
        ensures
            final(self)@ == after_disconnect(old(self)@, ssid@, status),
            failure(r) == (match remove_outcome(status) {
                Ok(_) => None,
                Err(e) => Some(e),
            }),
    {
        match map_remove_status(status) {
            Ok(_) => {
                let _evicted = self.evict_suggestion(ssid);
                Ok(())
            },
            Err(e) => Err(e),
        }
    }

    /// Completes a removal that the OS answered with `status`. Returns whether
    /// the OS removed anything; only then the suggestion is forgotten.
    pub fn finish_remove(&mut self, ssid: &Ssid, status: i32) -> (r: Result<bool, Error>)
        ensures
            final(self)@ == after_remove(old(self)@, ssid@, status),
            match remove_outcome(status) {
                Ok(outcome) => r == Ok::<bool, Error>(outcome == RemoveOutcome::WasRemoved),
                Err(e) => failure(r) == Some(e),
            },
    {
        match map_remove_status(status) {
            Ok(RemoveOutcome::WasRemoved) => {
                let _evicted = self.evict_suggestion(ssid);
                Ok(true)
            },
            Ok(RemoveOutcome::NotPresent) => Ok(false),
            Err(e) => Err(e),
        }
    }
}

/// A disconnect forgets the SSID when the OS removed it or did not have it, a
/// removal only when the OS removed it, and no other status changes anything.
pub proof fn the_status_decides_what_is_forgotten<T>(
    cache: Map<Seq<u8>, T>,
    ssid: Seq<u8>,
    status: i32,
)
    ensures
        status == 0 || status == 5 ==> after_disconnect(cache, ssid, status) == cache.remove(ssid),
        status != 0 && status != 5 ==> after_disconnect(cache, ssid, status) == cache,
        status == 0 ==> after_remove(cache, ssid, status) == cache.remove(ssid),
        status != 0 ==> after_remove(cache, ssid, status) == cache,
{
}

} // verus!
