//! The field specifications of a `$project`, held in a `LinkedHashMap`.

use crate::air::ProjectItem;
use linked_hash_map::LinkedHashMap;
use vstd::prelude::*;

verus! {

#[verifier::external_type_specification]
#[verifier::external_body]
#[verifier::reject_recursive_types(K)]
#[verifier::reject_recursive_types(V)]
#[verifier::reject_recursive_types(S)]
pub struct ExLinkedHashMap<K, V, S>(LinkedHashMap<K, V, S>);

/// The entries of a projection map, in the map's iteration (insertion) order, each key
/// taken by its characters.
pub uninterp spec fn projection_entries(m: LinkedHashMap<String, ProjectItem>) -> Seq<(Seq<char>, ProjectItem)>;

/// The entries after `insert(k, v)` on a map with entries `e`: an entry with key `k`
/// leaves its place and `(k, v)` goes to the back.
pub open spec fn entries_after_insert(e: Seq<(Seq<char>, ProjectItem)>, k: Seq<char>, v: ProjectItem) -> Seq<(Seq<char>, ProjectItem)> {
    e.filter(|p: (Seq<char>, ProjectItem)| p.0 != k).push((k, v))
}

/// `LinkedHashMap::new`: the new map has no entries.
#[verifier::external_body]
pub fn projection_new() -> (m: LinkedHashMap<String, ProjectItem>)
    ensures
        projection_entries(m) == Seq::<(Seq<char>, ProjectItem)>::empty(),
{
    LinkedHashMap::new()
}

/// `LinkedHashMap::insert`: the value of an existing key is replaced and its entry moves
/// to the back (the crate detaches and re-attaches the node); a new key is appended.
/// The previous value of the key is returned.
#[verifier::external_body]
pub fn projection_insert(m: &mut LinkedHashMap<String, ProjectItem>, k: String, v: ProjectItem) -> (prev: Option<ProjectItem>)
    ensures
        projection_entries(*final(m)) == entries_after_insert(projection_entries(*old(m)), k@, v),
        match prev {
            Some(x) => projection_entries(*old(m)).contains((k@, x)),
            None => forall|i: int| 0 <= i < projection_entries(*old(m)).len() ==>
                (#[trigger] projection_entries(*old(m))[i]).0 != k@,
        },
{
    m.insert(k, v)
}

} // verus!
