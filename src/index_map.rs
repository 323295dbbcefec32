//! The insertion-ordered map of `indexmap` that holds the notes, as seen by
//! the verified code: the sequence of its key-value pairs in order.
use crate::note_editors::NoteEntry;
use indexmap::IndexMap;
use vstd::prelude::*;

verus! {

#[verifier::external_type_specification]
#[verifier::external_body]
#[verifier::reject_recursive_types(K)]
#[verifier::reject_recursive_types(V)]
#[verifier::reject_recursive_types(S)]
pub struct ExIndexMap<K, V, S>(IndexMap<K, V, S>);

/// The key-value pairs of a note map, in the map's order.
pub uninterp spec fn map_entries(m: IndexMap<u64, NoteEntry>) -> Seq<(u64, NoteEntry)>;

/// No key occurs twice.
pub open spec fn distinct_keys(s: Seq<(u64, NoteEntry)>) -> bool {
    forall|i: int, j: int| 0 <= i < s.len() && 0 <= j < s.len() && i != j ==> s[i].0 != s[j].0
}

/// Relies on `IndexMap::new`: the new map holds no pairs.
#[verifier::external_body]
pub(crate) fn map_new() -> (r: IndexMap<u64, NoteEntry>)
    ensures
        map_entries(r) == Seq::<(u64, NoteEntry)>::empty(),
{
    IndexMap::new()
}

/// Relies on `IndexMap::len`: the number of pairs.
#[verifier::external_body]
pub(crate) fn map_len(m: &IndexMap<u64, NoteEntry>) -> (r: usize)
    ensures
        r == map_entries(*m).len(),
{
    m.len()
}

/// Relies on `IndexMap::insert`: a key already present keeps its place and
/// takes the new value; a new key is appended last. Keys stay unique.
#[verifier::external_body]
pub(crate) fn map_insert(m: &mut IndexMap<u64, NoteEntry>, key: u64, value: NoteEntry)
    ensures
        distinct_keys(map_entries(*final(m))),
        forall|j: int|
            0 <= j < map_entries(*old(m)).len() && map_entries(*old(m))[j].0 == key
                ==> map_entries(*final(m)) == map_entries(*old(m)).update(j, (key, value)),
        (forall|j: int| 0 <= j < map_entries(*old(m)).len() ==> map_entries(*old(m))[j].0 != key)
            ==> map_entries(*final(m)) == map_entries(*old(m)).push((key, value)),
{
    m.insert(key, value);
}

/// Relies on `IndexMap::get_index`: the pair at a position, if the position
/// is below the length.
#[verifier::external_body]
pub(crate) fn map_get_index(m: &IndexMap<u64, NoteEntry>, i: usize) -> (r: Option<(u64, &NoteEntry)>)
    ensures
        i < map_entries(*m).len() ==> r == Some((map_entries(*m)[i as int].0, &map_entries(*m)[i as int].1)),
        i >= map_entries(*m).len() ==> r is None,
{
    m.get_index(i).map(|(k, v)| (*k, v))
}

/// Relies on `IndexMap::get_index_of`: the position of a key, if present.
#[verifier::external_body]
pub(crate) fn map_get_index_of(m: &IndexMap<u64, NoteEntry>, key: u64) -> (r: Option<usize>)
    ensures
        r matches Some(j) ==> j < map_entries(*m).len() && map_entries(*m)[j as int].0 == key,
        r is None ==> forall|j: int| 0 <= j < map_entries(*m).len() ==> map_entries(*m)[j].0 != key,
{
    m.get_index_of(&key)
}

} // verus!
