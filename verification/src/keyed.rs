//! Lists of names in which no name occurs twice: the keys of a small map
//! that keeps the order in which the keys came.

use vstd::prelude::*;
use crate::text::same_text;

verus! {

/// The names of each of a list of strings.
pub open spec fn names_view(names: Seq<String>) -> Seq<Seq<char>> {
    Seq::new(names.len(), |i: int| names[i]@)
}

/// The index of `name` among `names`, where it is one of them.
pub open spec fn name_index(names: Seq<Seq<char>>, name: Seq<char>) -> Option<int>
    decreases names.len(),
{
    if names.len() == 0 {
        None
    } else if names.last() == name {
        Some(names.len() - 1)
    } else {
        name_index(names.drop_last(), name)
    }
}

/// The names after a tool is registered as `name`: `name` keeps its place
/// where it was registered, and else comes last.
pub open spec fn with_name(names: Seq<Seq<char>>, name: Seq<char>) -> Seq<Seq<char>> {
    match name_index(names, name) {
        Some(_) => names,
        None => names.push(name),
    }
}

/// Whether no name occurs twice.
pub open spec fn distinct_names(names: Seq<Seq<char>>) -> bool {
    forall|i: int, j: int| 0 <= i < j < names.len() ==> names[i] != names[j]
}

pub proof fn lemma_name_index(names: Seq<Seq<char>>, name: Seq<char>)
    ensures
        name_index(names, name) matches Some(at) ==> 0 <= at < names.len() && names[at] == name,
        name_index(names, name) is None ==> !names.contains(name),
        name_index(names, name) is Some ==> names.contains(name),
    decreases names.len(),
{
    if names.len() > 0 && names.last() != name {
        lemma_name_index(names.drop_last(), name);
        if name_index(names, name) is None {
            assert forall|i: int| 0 <= i < names.len() implies names[i] != name by {
                if i < names.len() - 1 {
                    assert(names.drop_last()[i] == names[i]);
                    assert(names.drop_last().contains(names[i]));
                }
            }
        } else {
            let at = name_index(names, name)->0;
            assert(names.drop_last()[at] == names[at]);
        }
    }
}

/// Adding a name, as `with_name` does, keeps the names distinct.
pub proof fn lemma_with_name_distinct(names: Seq<Seq<char>>, name: Seq<char>)
    requires
        distinct_names(names),
    ensures
        distinct_names(with_name(names, name)),
{
    lemma_name_index(names, name);
    let after = with_name(names, name);
    if name_index(names, name) is None {
        assert forall|i: int, j: int| 0 <= i < j < after.len() implies after[i] != after[j] by {
            if j == names.len() {
                assert(names.contains(names[i]));
            } else {
                assert(names[i] != names[j]);
            }
        }
    }
}

/// The index of `name` among `names`.
pub fn find_name(names: &Vec<String>, name: &str) -> (r: Option<usize>)
    ensures
        r is Some == names_view(names@).contains(name@),
        r matches Some(at) ==> at < names.len() && names@[at as int]@ == name@,
        match r {
            Some(at) => name_index(names_view(names@), name@) == Some(at as int),
            None => name_index(names_view(names@), name@) is None,
        },
{
    let ghost all = names_view(names@);
    proof {
        lemma_name_index(all, name@);
    }
    let mut i: usize = names.len();
    assert(all.take(i as int) =~= all);
    while i > 0
        invariant
            i <= names.len(),
            all == names_view(names@),
            name_index(all, name@) == name_index(all.take(i as int), name@),
        decreases i,
    {
        i -= 1;
        proof {
            assert(all.take(i + 1).last() == all[i as int]);
            assert(all.take(i + 1).drop_last() =~= all.take(i as int));
        }
        if same_text(names[i].as_str(), name) {
            return Some(i);
        }
    }
    assert(all.take(0).len() == 0);
    None
}

} // verus!
