//! Walking a list until something settles the search: the first item that
//! matches ends it well, the first that fails ends it badly, and the rest are
//! skipped.

use vstd::prelude::*;

use crate::error::{Error, ErrorView};

verus! {

/// What one item means for the search.
#[derive(Debug)]
pub enum Verdict {
    Skip,
    Match,
    Fail(Error),
}

/// What a [`Verdict`] says.
pub enum VerdictView {
    Skip,
    Match,
    Fail(ErrorView),
}

impl View for Verdict {
    type V = VerdictView;

    open spec fn view(&self) -> VerdictView {
        match self {
            Verdict::Skip => VerdictView::Skip,
            Verdict::Match => VerdictView::Match,
            Verdict::Fail(e) => VerdictView::Fail(e@),
        }
    }
}

/// How a search ended.
#[derive(Debug)]
pub enum Found {
    /// The item at that index matches.
    At(usize),
    /// No item matches.
    Nowhere,
    /// An item failed before any matched.
    Failed(Error),
}

/// What a [`Found`] says.
pub enum FoundView {
    At(int),
    Nowhere,
    Failed(ErrorView),
}

impl View for Found {
    type V = FoundView;

    open spec fn view(&self) -> FoundView {
        match self {
            Found::At(i) => FoundView::At(*i as int),
            Found::Nowhere => FoundView::Nowhere,
            Found::Failed(e) => FoundView::Failed(e@),
        }
    }
}

/// How a search over these verdicts ends.
pub open spec fn search(verdicts: Seq<VerdictView>) -> FoundView
    decreases verdicts.len(),
{
    if verdicts.len() == 0 {
        FoundView::Nowhere
    } else {
        match search(verdicts.drop_last()) {
            FoundView::Nowhere => match verdicts.last() {
                VerdictView::Skip => FoundView::Nowhere,
                VerdictView::Match => FoundView::At(verdicts.len() - 1),
                VerdictView::Fail(e) => FoundView::Failed(e),
            },
            settled => settled,
        }
    }
}

/// What a list of verdicts says.
pub open spec fn verdict_views(verdicts: Seq<Verdict>) -> Seq<VerdictView> {
    verdicts.map_values(|v: Verdict| v@)
}

/// A search that is settled by a beginning of the list is settled for good.
proof fn lemma_settled(verdicts: Seq<VerdictView>, n: int)
    requires
        0 <= n <= verdicts.len(),
        search(verdicts.take(n)) !is Nowhere,
    ensures
        search(verdicts) == search(verdicts.take(n)),
    decreases verdicts.len(),
{
    if n == verdicts.len() {
        assert(verdicts.take(n) =~= verdicts);
    } else {
        let rest = verdicts.drop_last();
        assert(rest.take(n) =~= verdicts.take(n));
        lemma_settled(rest, n);
    }
}

/// A search ends at an item of the list.
pub proof fn lemma_found_in_range(verdicts: Seq<VerdictView>)
    ensures
        search(verdicts) matches FoundView::At(i) ==> 0 <= i < verdicts.len(),
    decreases verdicts.len(),
{
    if verdicts.len() > 0 {
        lemma_found_in_range(verdicts.drop_last());
    }
}

/// Runs a search over verdicts.
pub fn first_settled(verdicts: Vec<Verdict>) -> (r: Found)
    ensures
        r@ == search(verdict_views(verdicts@)),
{
    let ghost views = verdict_views(verdicts@);
    let count: usize = verdicts.len();
    let mut i: usize = 0;
    for v in it: verdicts
        invariant
            views == verdict_views(it.seq()),
            i == it.index(),
            it.index() <= it.seq().len() == count,
            search(views.take(it.index() as int)) is Nowhere,
    {
        let ghost n = it.index() as int;
        assert(views.take(n + 1).drop_last() =~= views.take(n));
        assert(views.take(n + 1).last() == v@);
        match v {
            Verdict::Skip => {},
            Verdict::Match => {
                proof {
                    lemma_settled(views, n + 1);
                }
                return Found::At(i);
            },
            Verdict::Fail(e) => {
                proof {
                    lemma_settled(views, n + 1);
                }
                return Found::Failed(e);
            },
        }
        i = i + 1;
    }
    assert(views.take(views.len() as int) =~= views);
    Found::Nowhere
}

/// A search ends at the first match: that item matches, and all before it were
/// skipped.
pub proof fn search_finds_the_first_match(verdicts: Seq<VerdictView>, i: int)
    ensures
        search(verdicts) == FoundView::At(i) <==> 0 <= i < verdicts.len() && verdicts[i] is Match
            && forall|k: int| 0 <= k < i ==> verdicts[k] is Skip,
        search(verdicts) is Nowhere <==> forall|k: int|
            0 <= k < verdicts.len() ==> verdicts[k] is Skip,
    decreases verdicts.len(),
{
    if verdicts.len() > 0 {
        let rest = verdicts.drop_last();
        search_finds_the_first_match(rest, i);
        assert(forall|k: int| 0 <= k < rest.len() ==> rest[k] == verdicts[k]);
        if forall|k: int| 0 <= k < verdicts.len() ==> verdicts[k] is Skip {
            assert(forall|k: int| 0 <= k < rest.len() ==> rest[k] is Skip);
            assert(verdicts[verdicts.len() - 1] is Skip);
        }
        if 0 <= i < verdicts.len() && verdicts[i] is Match && (forall|k: int|
            0 <= k < i ==> verdicts[k] is Skip) {
            if i < rest.len() {
                assert(forall|k: int| 0 <= k < i ==> rest[k] is Skip);
            } else {
                assert(forall|k: int| 0 <= k < rest.len() ==> rest[k] is Skip);
            }
        }
        if search(verdicts) == FoundView::At(i) {
            if search(rest) is Nowhere {
                assert(forall|k: int| 0 <= k < i ==> rest[k] is Skip);
                assert(forall|k: int| 0 <= k < i ==> verdicts[k] is Skip);
            }
        }
    }
}

/// A search fails exactly when an item failed and all before it were skipped, and
/// then with the error of that item.
pub proof fn search_fails_at_the_first_failure(verdicts: Seq<VerdictView>, e: ErrorView)
    ensures
        search(verdicts) == FoundView::Failed(e) <==> exists|i: int|
            0 <= i < verdicts.len() && verdicts[i] == VerdictView::Fail(e) && forall|k: int|
                0 <= k < i ==> verdicts[k] is Skip,
    decreases verdicts.len(),
{
    if verdicts.len() > 0 {
        let rest = verdicts.drop_last();
        let last = verdicts.len() - 1;
        search_fails_at_the_first_failure(rest, e);
        search_finds_the_first_match(rest, 0);
        assert(forall|k: int| 0 <= k < rest.len() ==> rest[k] == verdicts[k]);
        if search(verdicts) == FoundView::Failed(e) {
            if search(rest) == FoundView::Failed(e) {
                let i = choose|i: int|
                    0 <= i < rest.len() && rest[i] == VerdictView::Fail(e) && forall|k: int|
                        0 <= k < i ==> rest[k] is Skip;
                assert(verdicts[i] == VerdictView::Fail(e));
                assert forall|k: int| 0 <= k < i implies verdicts[k] is Skip by {
                    assert(rest[k] is Skip);
                }
            } else {
                assert(search(rest) is Nowhere);
                assert(verdicts[last] == VerdictView::Fail(e));
                assert forall|k: int| 0 <= k < last implies verdicts[k] is Skip by {
                    assert(rest[k] is Skip);
                }
            }
        }
        if exists|i: int|
            0 <= i < verdicts.len() && verdicts[i] == VerdictView::Fail(e) && forall|k: int|
                0 <= k < i ==> verdicts[k] is Skip {
            let i = choose|i: int|
                0 <= i < verdicts.len() && verdicts[i] == VerdictView::Fail(e) && forall|k: int|
                    0 <= k < i ==> verdicts[k] is Skip;
            if i < last {
                assert(rest[i] == VerdictView::Fail(e));
                assert forall|k: int| 0 <= k < i implies rest[k] is Skip by {
                    assert(verdicts[k] is Skip);
                }
            } else {
                assert forall|k: int| 0 <= k < rest.len() implies rest[k] is Skip by {
                    assert(verdicts[k] is Skip);
                }
                assert(search(rest) is Nowhere);
            }
        }
    }
}

/// What a verdict and the end of a search say is what they hold, and a list of
/// verdicts is seen one for one.
pub proof fn search_views_are_faithful(verdicts: Seq<Verdict>, k: int, i: usize, e: Error)
    requires
        0 <= k < verdicts.len(),
    ensures
        verdict_views(verdicts).len() == verdicts.len(),
        verdict_views(verdicts)[k] == verdicts[k]@,
        Verdict::Skip@ == VerdictView::Skip,
        Verdict::Match@ == VerdictView::Match,
        Verdict::Fail(e)@ == VerdictView::Fail(e@),
        Found::At(i)@ == FoundView::At(i as int),
        Found::Nowhere@ == FoundView::Nowhere,
        Found::Failed(e)@ == FoundView::Failed(e@),
{
}

} // verus!
