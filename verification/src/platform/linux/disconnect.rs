//! `disconnect` and `remove_profile` for the Linux backend.

use vstd::prelude::*;

use crate::error::{failure, Error};
use crate::platform::linux::scan::{
    find_profile, profile_verdicts, profiles_are_found_by_their_octets, SavedProfile,
};
use crate::search::{
    first_settled,
    search,
    search_fails_at_the_first_failure,
    search_finds_the_first_match,
    verdict_views,
    Found,
    FoundView,
    Verdict,
    VerdictView,
};
use crate::text::{has_text, lists_text, same_text};
use crate::types::Ssid;

verus! {

broadcast use vstd::string::group_string_axioms;

/// What was read about an active connection.
#[derive(Debug)]
pub enum ActiveConnection {
    /// There is no access to the connection at all.
    Unreachable(Error),
    Read {
        /// Object paths of its devices; `None` if it disappeared meanwhile.
        devices: Option<Vec<String>>,
        /// Object path of its access point; `None` if it disappeared meanwhile.
        specific: Option<String>,
        /// The SSID of that access point, or `None` if it disappeared meanwhile.
        ap_ssid: Result<Option<Vec<u8>>, Error>,
    },
}

/// Whether an active connection is the one to deactivate: it is bound to the
/// device, its access point is known (`"/"` means that it is not), and that has
/// the SSID.
pub open spec fn active_verdict(
    active: ActiveConnection,
    device_path: Seq<char>,
    ssid: Seq<u8>,
) -> VerdictView {
    match active {
        ActiveConnection::Unreachable(e) => VerdictView::Fail(e@),
        ActiveConnection::Read { devices, specific, ap_ssid } => {
            if devices is None || !lists_text(devices->0@, device_path) {
                VerdictView::Skip
            } else if specific is None || specific->0@ == "/"@ {
                VerdictView::Skip
            } else {
                match ap_ssid {
                    Err(e) => VerdictView::Fail(e@),
                    Ok(None) => VerdictView::Skip,
                    Ok(Some(bytes)) => if bytes@ == ssid {
                        VerdictView::Match
                    } else {
                        VerdictView::Skip
                    },
                }
            }
        },
    }
}

fn judge_active(active: ActiveConnection, device_path: &str, ssid: &Ssid) -> (r: Verdict)
    ensures
        r@ == active_verdict(active, device_path@, ssid@),
{
    match active {
        ActiveConnection::Unreachable(e) => Verdict::Fail(e),
        ActiveConnection::Read { devices, specific, ap_ssid } => {
            match devices {
                None => {
                    return Verdict::Skip;
                },
                Some(paths) => {
                    if !has_text(&paths, device_path) {
                        return Verdict::Skip;
                    }
                },
            }
            match specific {
                None => {
                    return Verdict::Skip;
                },
                Some(path) => {
                    if same_text(path.as_str(), "/") {
                        return Verdict::Skip;
                    }
                },
            }
            match ap_ssid {
                Err(e) => Verdict::Fail(e),
                Ok(None) => Verdict::Skip,
                Ok(Some(bytes)) => {
                    if Ssid::from_bytes(bytes).same_as(ssid) {
                        Verdict::Match
                    } else {
                        Verdict::Skip
                    }
                },
            }
        },
    }
}

/// What each active connection means for the search.
pub open spec fn active_verdicts(
    actives: Seq<ActiveConnection>,
    device_path: Seq<char>,
    ssid: Seq<u8>,
) -> Seq<VerdictView> {
    actives.map_values(|a: ActiveConnection| active_verdict(a, device_path, ssid))
}

/// Which active connection to deactivate: the first on that device whose Wi-Fi
/// SSID matches, or none at all, which is no error.
pub fn disconnect_ssid(actives: Vec<ActiveConnection>, device_path: &str, ssid: &Ssid) -> (r: Result<
    Option<usize>,
    Error,
>)
    ensures
        match search(active_verdicts(actives@, device_path@, ssid@)) {
            FoundView::At(i) => r == Ok::<Option<usize>, Error>(Some(i as usize)) && 0 <= i
                < actives@.len(),
            FoundView::Nowhere => r == Ok::<Option<usize>, Error>(None),
            FoundView::Failed(e) => failure(r) == Some(e),
        },
        r matches Ok(Some(i)) ==> i < actives@.len() && actives@[i as int] is Read
            && actives@[i as int]->ap_ssid is Ok && actives@[i as int]->ap_ssid->Ok_0 is Some
            && actives@[i as int]->ap_ssid->Ok_0->0@ == ssid@,
{
    proof {
        assert forall|k: int| 0 <= k < actives@.len() && search(
            active_verdicts(actives@, device_path@, ssid@),
        ) == FoundView::At(k) implies (#[trigger] actives@[k]) is Read && actives@[k]->ap_ssid is Ok
            && actives@[k]->ap_ssid->Ok_0 is Some && actives@[k]->ap_ssid->Ok_0->0@ == ssid@ by {
            disconnects_go_by_device_and_octets(actives@, device_path@, ssid@, k);
        }
    }
    let ghost wanted = active_verdicts(actives@, device_path@, ssid@);
    let ghost total = actives@.len();
    let count: usize = actives.len();
    let mut verdicts: Vec<Verdict> = Vec::new();
    for active in it: actives
        invariant
            wanted == active_verdicts(it.seq(), device_path@, ssid@),
            it.seq().len() == total == count,
            verdict_views(verdicts@) =~= wanted.take(it.index() as int),
    {
        let ghost was = verdicts@;
        let v = judge_active(active, device_path, ssid);
        verdicts.push(v);
        assert(verdict_views(verdicts@) =~= verdict_views(was).push(v@));
    }
    assert(wanted.take(wanted.len() as int) =~= wanted);
    proof {
        crate::search::lemma_found_in_range(wanted);
    }
    match first_settled(verdicts) {
        Found::At(i) => Ok(Some(i)),
        Found::Nowhere => Ok(None),
        Found::Failed(e) => Err(e),
    }
}

/// Which saved profile to delete: the first with that SSID, or none at all.
pub fn remove_profile_for_ssid(profiles: Vec<SavedProfile>, ssid: &Ssid) -> (r: Result<
    Option<usize>,
    Error,
>)
    ensures
        match search(profile_verdicts(profiles@, ssid@)) {
            FoundView::At(i) => r == Ok::<Option<usize>, Error>(Some(i as usize)) && 0 <= i
                < profiles@.len(),
            FoundView::Nowhere => r == Ok::<Option<usize>, Error>(None),
            FoundView::Failed(e) => failure(r) == Some(e),
        },
        r matches Ok(Some(i)) ==> i < profiles@.len() && profiles@[i as int] is Read
            && profiles@[i as int]->ssid is Some && profiles@[i as int]->ssid->0@ == ssid@,
{
    proof {
        profiles_are_found_by_their_octets(profiles@, ssid@);
    }
    match find_profile(profiles, ssid) {
        Found::At(i) => Ok(Some(i)),
        Found::Nowhere => Ok(None),
        Found::Failed(e) => Err(e),
    }
}

/// The connection that a disconnect finds is on the device, its access point is
/// known and has exactly the octets of the SSID, and nothing before it is so, nor
/// was any of those out of reach. It finds none only when there is none.
pub proof fn disconnects_go_by_device_and_octets(
    actives: Seq<ActiveConnection>,
    device_path: Seq<char>,
    ssid: Seq<u8>,
    k: int,
)
    requires
        0 <= k < actives.len(),
    ensures
        ({
            let a = actives[k];
            let on_device = a is Read && a->devices is Some && exists|i: int|
                0 <= i < a->devices->0@.len() && (#[trigger] a->devices->0@[i])@ == device_path;
            let known = a is Read && a->specific is Some && a->specific->0@ != "/"@;
            let named = a is Read && a->ap_ssid is Ok && a->ap_ssid->Ok_0 is Some
                && a->ap_ssid->Ok_0->0@ == ssid;
            match search(active_verdicts(actives, device_path, ssid)) {
                FoundView::At(i) => {
                    &&& 0 <= i < actives.len()
                    &&& k == i ==> on_device && known && named
                    &&& k < i ==> a is Read && !(on_device && known && (named || a->ap_ssid is Err))
                },
                FoundView::Nowhere => a is Read && !(on_device && known && (named || a->ap_ssid
                    is Err)),
                FoundView::Failed(e) => exists|i: int|
                    0 <= i < actives.len() && (k < i ==> a is Read && !(on_device && known && (named
                        || a->ap_ssid is Err))) && (match #[trigger] actives[i] {
                        ActiveConnection::Unreachable(error) => error@ == e,
                        ActiveConnection::Read { devices, specific, ap_ssid } => {
                            &&& devices is Some && exists|j: int|
                                0 <= j < devices->0@.len() && (#[trigger] devices->0@[j])@
                                    == device_path
                            &&& specific is Some && specific->0@ != "/"@
                            &&& ap_ssid is Err && ap_ssid->Err_0@ == e
                        },
                    }),
            }
        }),
{
    let verdicts = active_verdicts(actives, device_path, ssid);
    assert(forall|m: int|
        0 <= m < actives.len() ==> verdicts[m] == active_verdict(
            #[trigger] actives[m],
            device_path,
            ssid,
        ));
    assert(verdicts[k] == active_verdict(actives[k], device_path, ssid));
    match search(verdicts) {
        FoundView::At(i) => {
            search_finds_the_first_match(verdicts, i);
        },
        FoundView::Nowhere => {
            search_finds_the_first_match(verdicts, 0);
        },
        FoundView::Failed(e) => {
            search_fails_at_the_first_failure(verdicts, e);
            let i = choose|i: int|
                0 <= i < verdicts.len() && verdicts[i] == VerdictView::Fail(e) && forall|m: int|
                    0 <= m < i ==> verdicts[m] is Skip;
            assert(verdicts[i] == active_verdict(actives[i], device_path, ssid));
        },
    }
}

} // verus!
