//! The namespaces of the cluster as candidates of a selection.

use crate::ui::{candidates, candidates_of};
use vstd::prelude::*;

verus! {

/// The names that are there, in their order: an item without a name is left
/// out.
pub open spec fn named(items: Seq<Option<Seq<char>>>) -> Seq<Seq<char>>
    decreases items.len(),
{
    if items.len() == 0 {
        Seq::empty()
    } else {
        match items.last() {
            Some(name) => named(items.drop_last()).push(name),
            None => named(items.drop_last()),
        }
    }
}

/// The text that goes to the prompt for the namespaces that the cluster
/// listed: of each item its name, where it has one, in the order of the
/// listing, one per line, and marked where it is the namespace that is
/// configured now.
pub fn get_namespaces(items: &Vec<Option<String>>, current_namespace: Option<&String>) -> (input:
    String)
    ensures
        input@ == candidates_of(named(items.deep_view()), current_namespace.deep_view()),
{
    let mut names: Vec<String> = Vec::new();
    let mut i: usize = 0;
    while i < items.len()
        invariant
            i <= items.len(),
            names.deep_view() == named(items.deep_view().take(i as int)),
        decreases items.len() - i,
    {
        proof {
            let before = items.deep_view().take(i as int);
            let after = items.deep_view().take(i + 1);
            assert(after.drop_last() =~= before);
            assert(after.last() == items[i as int].deep_view());
        }
        let ghost before = names.deep_view();
        match &items[i] {
            Some(name) => {
                names.push(name.clone());
                assert(names.deep_view() =~= before.push(name@));
            },
            None => {},
        }
        i += 1;
    }
    assert(items.deep_view().take(items.len() as int) =~= items.deep_view());
    candidates(&names, current_namespace)
}

} // verus!
