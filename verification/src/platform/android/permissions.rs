//! Permission checks via `Context.checkSelfPermission`.

use vstd::prelude::*;

use crate::error::{failure, Error};
use crate::search::{
    first_settled,
    search,
    search_fails_at_the_first_failure,
    search_finds_the_first_match,
    verdict_views,
    Found,
    FoundView,
    Verdict,
    VerdictView,
};

verus! {

/// `PackageManager.PERMISSION_GRANTED` per the Android SDK.
pub const PERMISSION_GRANTED: i32 = 0;

/// What the check of one permission means.
pub open spec fn permission_verdict(check: Result<i32, Error>) -> VerdictView {
    match check {
        Ok(code) => if code == PERMISSION_GRANTED {
            VerdictView::Match
        } else {
            VerdictView::Skip
        },
        Err(e) => VerdictView::Fail(e@),
    }
}

/// What each check means.
pub open spec fn permission_verdicts(checks: Seq<Result<i32, Error>>) -> Seq<VerdictView> {
    checks.map_values(|c: Result<i32, Error>| permission_verdict(c))
}

/// Returns `true` if the host app holds *any* of the permissions that
/// gate `WifiManager.getScanResults()` access on the current Android
/// version. `checks` are the results for `ACCESS_FINE_LOCATION` (API 23+) and
/// `NEARBY_WIFI_DEVICES` (API 33+), in that order; the OS only grants the one
/// that matches the runtime API.
pub fn host_can_scan(checks: Vec<Result<i32, Error>>) -> (r: Result<bool, Error>)
    ensures
        match search(permission_verdicts(checks@)) {
            FoundView::At(_) => r == Ok::<bool, Error>(true),
            FoundView::Nowhere => r == Ok::<bool, Error>(false),
            FoundView::Failed(e) => failure(r) == Some(e),
        },
{
    let ghost wanted = permission_verdicts(checks@);
    let count: usize = checks.len();
    let mut verdicts: Vec<Verdict> = Vec::new();
    for check in it: checks
        invariant
            wanted == permission_verdicts(it.seq()),
            it.seq().len() == count,
            verdict_views(verdicts@) =~= wanted.take(it.index() as int),
    {
        let ghost was = verdicts@;
        let v = match check {
            Ok(code) => if code == PERMISSION_GRANTED {
                Verdict::Match
            } else {
                Verdict::Skip
            },
            Err(e) => Verdict::Fail(e),
        };
        verdicts.push(v);
        assert(verdict_views(verdicts@) =~= verdict_views(was).push(v@));
    }
    assert(wanted.take(wanted.len() as int) =~= wanted);
    match first_settled(verdicts) {
        Found::At(_) => Ok(true),
        Found::Nowhere => Ok(false),
        Found::Failed(e) => Err(e),
    }
}

/// The app may scan exactly when a check says that a permission is granted and
/// none before it failed; it may not when every check came back and none says so;
/// else the error is that of the first check that failed.
pub proof fn one_granted_permission_suffices(checks: Seq<Result<i32, Error>>)
    ensures
        match search(permission_verdicts(checks)) {
            FoundView::At(i) => 0 <= i < checks.len() && checks[i] == Ok::<i32, Error>(0) && forall|
                k: int,
            |
                0 <= k < i ==> (#[trigger] checks[k]) is Ok && checks[k]->Ok_0 != 0,
            FoundView::Nowhere => forall|k: int|
                0 <= k < checks.len() ==> (#[trigger] checks[k]) is Ok && checks[k]->Ok_0 != 0,
            FoundView::Failed(e) => exists|i: int|
                0 <= i < checks.len() && (#[trigger] checks[i]) is Err && checks[i]->Err_0@ == e
                    && forall|k: int|
                    0 <= k < i ==> (#[trigger] checks[k]) is Ok && checks[k]->Ok_0 != 0,
        },
{
    let verdicts = permission_verdicts(checks);
    assert(forall|k: int|
        0 <= k < checks.len() ==> verdicts[k] == permission_verdict(#[trigger] checks[k]));
    match search(verdicts) {
        FoundView::At(i) => {
            search_finds_the_first_match(verdicts, i);
            assert forall|k: int| 0 <= k < i implies (#[trigger] checks[k]) is Ok && checks[k]->Ok_0
                != 0 by {
                assert(verdicts[k] is Skip);
            }
        },
        FoundView::Nowhere => {
            search_finds_the_first_match(verdicts, 0);
            assert forall|k: int| 0 <= k < checks.len() implies (#[trigger] checks[k]) is Ok
                && checks[k]->Ok_0 != 0 by {
                assert(verdicts[k] is Skip);
            }
        },
        FoundView::Failed(e) => {
            search_fails_at_the_first_failure(verdicts, e);
            let i = choose|i: int|
                0 <= i < verdicts.len() && verdicts[i] == VerdictView::Fail(e) && forall|k: int|
                    0 <= k < i ==> verdicts[k] is Skip;
            assert(checks[i] is Err);
            assert forall|k: int| 0 <= k < i implies (#[trigger] checks[k]) is Ok && checks[k]->Ok_0
                != 0 by {
                assert(verdicts[k] is Skip);
            }
        },
    }
}

} // verus!
