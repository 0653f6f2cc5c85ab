//! What backends say about adapters.

use vstd::prelude::*;

use crate::types::AdapterId;

verus! {

/// Per-adapter description returned by a backend's `list_adapters`.
#[derive(Debug)]
pub struct AdapterInfo {
    pub id: AdapterId,
    pub name: String,
}

/// What an [`AdapterInfo`] says.
pub struct AdapterView {
    pub id: Seq<char>,
    pub name: Seq<char>,
}

impl View for AdapterInfo {
    type V = AdapterView;

    open spec fn view(&self) -> AdapterView {
        AdapterView { id: self.id@, name: self.name@ }
    }
}

impl Clone for AdapterInfo {
    fn clone(&self) -> (r: AdapterInfo)
        ensures
            r@ == self@,
    {
        AdapterInfo { id: self.id.clone(), name: self.name.clone() }
    }
}

/// What a list of adapters says.
pub open spec fn adapter_views(infos: Seq<AdapterInfo>) -> Seq<AdapterView> {
    infos.map_values(|i: AdapterInfo| i@)
}

/// Whether an adapter with that identifier is listed.
pub open spec fn lists_adapter(infos: Seq<AdapterView>, id: Seq<char>) -> bool {
    exists|i: int| 0 <= i < infos.len() && (#[trigger] infos[i]).id == id
}

/// Whether an adapter with that identifier is listed.
pub fn has_adapter(infos: &Vec<AdapterInfo>, id: &AdapterId) -> (r: bool)
    ensures
        r == lists_adapter(adapter_views(infos@), id@),
{
    let mut i: usize = 0;
    while i < infos.len()
        invariant
            i <= infos@.len(),
            forall|k: int| 0 <= k < i ==> (#[trigger] infos@[k]).id@ != id@,
        decreases infos@.len() - i,
    {
        if infos[i].id.same_as(id) {
            assert(adapter_views(infos@)[i as int].id == id@);
            return true;
        }
        i = i + 1;
    }
    assert(forall|k: int|
        0 <= k < infos@.len() ==> (#[trigger] adapter_views(infos@)[k]).id == infos@[k].id@);
    false
}

/// A copy of a list of adapters.
pub fn copy_adapters(infos: &Vec<AdapterInfo>) -> (r: Vec<AdapterInfo>)
    ensures
        adapter_views(r@) == adapter_views(infos@),
{
    let mut out: Vec<AdapterInfo> = Vec::new();
    let mut i: usize = 0;
    while i < infos.len()
        invariant
            i <= infos@.len(),
            out@.len() == i,
            forall|k: int| 0 <= k < i ==> (#[trigger] out@[k])@ == infos@[k]@,
        decreases infos@.len() - i,
    {
        out.push(infos[i].clone());
        i = i + 1;
    }
    assert(adapter_views(out@) =~= adapter_views(infos@));
    out
}

/// There are as many views as adapters, each with the identifier and the name of
/// the adapter that stands there.
pub proof fn adapter_views_are_faithful(infos: Seq<AdapterInfo>, k: int)
    requires
        0 <= k < infos.len(),
    ensures
        adapter_views(infos).len() == infos.len(),
        adapter_views(infos)[k].id == infos[k].id@,
        adapter_views(infos)[k].name == infos[k].name@,
        lists_adapter(adapter_views(infos), infos[k].id@),
{
    assert(adapter_views(infos)[k].id == infos[k].id@);
}

/// An adapter counts as listed only when one has that very identifier.
pub proof fn listed_adapters_have_the_identifier(infos: Seq<AdapterInfo>, id: Seq<char>)
    requires
        lists_adapter(adapter_views(infos), id),
    ensures
        exists|k: int| 0 <= k < infos.len() && (#[trigger] infos[k]).id@ == id,
{
    let views = adapter_views(infos);
    let k = choose|k: int| 0 <= k < views.len() && (#[trigger] views[k]).id == id;
    assert(infos[k].id@ == id);
}

} // verus!
