//! Maps keyed by cell or chunk coordinates (`FxHashMap`s), seen through their contents.
use rustc_hash::{FxBuildHasher, FxHashMap};
use vstd::prelude::*;

verus! {

/// The hasher that `FxHashMap` uses, carried through opaquely.
#[verifier::external_type_specification]
#[verifier::external_body]
pub struct ExFxBuildHasher(FxBuildHasher);

/// A map keyed by cell or chunk coordinates.
pub type CellMap<V> = FxHashMap<(i32, i32), V>;

/// Whether a map holds finitely many keys, `count` of them.
pub open spec fn has_size<K, V>(m: Map<K, V>, count: nat) -> bool {
    m.dom().finite() && m.len() == count
}

/// `HashMap::get`: the value stored under `key`.
#[verifier::external_body]
pub(crate) fn cell_entry<V>(map: &CellMap<V>, key: (i32, i32)) -> (value: Option<&V>)
    ensures
        match value {
            Some(value) => map@.contains_key(key) && *value == map@[key],
            None => !map@.contains_key(key),
        },
{
    map.get(&key)
}

/// `HashMap::remove`: takes the value stored under `key` out.
#[verifier::external_body]
pub(crate) fn take_cell<V>(map: &mut CellMap<V>, key: (i32, i32)) -> (value: Option<V>)
    ensures
        final(map)@ == old(map)@.remove(key),
        match value {
            Some(value) => old(map)@.contains_key(key) && value == old(map)@[key],
            None => !old(map)@.contains_key(key),
        },
{
    map.remove(&key)
}

/// `HashMap::insert`: stores `value` under `key`, replacing any value stored there.
#[verifier::external_body]
pub(crate) fn put_cell<V>(map: &mut CellMap<V>, key: (i32, i32), value: V)
    ensures
        final(map)@ == old(map)@.insert(key, value),
{
    map.insert(key, value);
}

/// `HashMap::keys`, copied out: every key once, in the map's own order.
#[verifier::external_body]
pub(crate) fn cell_keys<V>(map: &CellMap<V>) -> (keys: Vec<(i32, i32)>)
    ensures
        keys@.no_duplicates(),
        forall|key: (i32, i32)| #[trigger] map@.contains_key(key) <==> keys@.contains(key),
{
    map.keys().copied().collect()
}

/// `HashMap::keys`, first key: some key of the map, in the map's own order; `None` when
/// the map is empty.
#[verifier::external_body]
pub(crate) fn first_cell<V>(map: &CellMap<V>) -> (key: Option<(i32, i32)>)
    ensures
        match key {
            Some(key) => map@.contains_key(key),
            None => map@.dom() == Set::<(i32, i32)>::empty(),
        },
{
    map.keys().next().copied()
}

/// `HashMap::len`: the number of keys, of which there are finitely many.
#[verifier::external_body]
pub(crate) fn cell_count<V>(map: &CellMap<V>) -> (count: usize)
    ensures
        has_size(map@, count as nat),
{
    map.len()
}

} // verus!
