//! Adapters by their BSD names.

use vstd::prelude::*;

use crate::backend::{adapter_views, AdapterInfo, AdapterView};
use crate::error::{failure, Error, ErrorView};
use crate::types::AdapterId;

verus! {

broadcast use vstd::string::group_string_axioms;

/// The adapters of interfaces with these names. An interface without a name is
/// none.
pub open spec fn named_adapters(names: Seq<Option<String>>) -> Seq<AdapterView>
    decreases names.len(),
{
    if names.len() == 0 {
        seq![]
    } else {
        let before = named_adapters(names.drop_last());
        match names.last() {
            Some(name) => before.push(AdapterView { id: name@, name: name@ }),
            None => before,
        }
    }
}

/// One adapter per named interface, `names` being the names of all interfaces, or
/// nothing where there is no list. Without Wi-Fi hardware there are no adapters,
/// which is no error.
pub fn list_adapters(names: Option<&Vec<Option<String>>>) -> (r: Vec<AdapterInfo>)
    ensures
        adapter_views(r@) == (match names {
            Some(list) => named_adapters(list@),
            None => seq![],
        }),
{
    let mut out: Vec<AdapterInfo> = Vec::new();
    assert(adapter_views(out@) =~= seq![]);
    match names {
        None => out,
        Some(list) => {
            let mut i: usize = 0;
            while i < list.len()
                invariant
                    names == Some(list),
                    i <= list@.len(),
                    adapter_views(out@) == named_adapters(list@.take(i as int)),
                decreases list@.len() - i,
            {
                let ghost was = out@;
                assert(list@.take(i + 1).drop_last() =~= list@.take(i as int));
                if let Some(name) = &list[i] {
                    out.push(AdapterInfo { id: AdapterId::new(name.as_str()), name: name.clone() });
                    assert(adapter_views(out@) =~= adapter_views(was).push(
                        AdapterView { id: name@, name: name@ },
                    ));
                }
                i = i + 1;
            }
            assert(list@.take(list@.len() as int) =~= list@);
            out
        },
    }
}

/// The interface of an adapter, if the OS (still) exposes one under that name.
///
/// # Errors
///
/// Returns `Error::AdapterNotFound(_)` if there is none (e.g. a USB Wi-Fi dongle
/// was unplugged between `list_adapters` and the operation).
pub fn resolve_interface_by_id<I>(interface: Option<I>, adapter: &AdapterId) -> (r: Result<I, Error>)
    ensures
        match interface {
            Some(i) => r == Ok::<I, Error>(i),
            None => failure(r) == Some(ErrorView::AdapterNotFound(adapter@)),
        },
{
    match interface {
        Some(i) => Ok(i),
        None => Err(Error::AdapterNotFound(adapter.to_string())),
    }
}

/// The adapters are the interfaces with a name, in their order, each under that
/// name.
pub proof fn adapters_are_the_named_interfaces(names: Seq<Option<String>>)
    ensures
        named_adapters(names) == names.filter(|n: Option<String>| n is Some).map_values(
            |n: Option<String>| AdapterView { id: n->0@, name: n->0@ },
        ),
    decreases names.len(),
{
    reveal(Seq::filter);
    let named = |n: Option<String>| n is Some;
    let adapter = |n: Option<String>| AdapterView { id: n->0@, name: n->0@ };
    if names.len() == 0 {
        assert(names.filter(named).map_values(adapter) =~= seq![]);
    } else {
        let rest = names.drop_last();
        adapters_are_the_named_interfaces(rest);
        if names.last() is Some {
            assert(names.filter(named) =~= rest.filter(named).push(names.last()));
            assert(names.filter(named).map_values(adapter) =~= rest.filter(named).map_values(
                adapter,
            ).push(adapter(names.last())));
        } else {
            assert(names.filter(named) =~= rest.filter(named));
        }
    }
}

} // verus!
