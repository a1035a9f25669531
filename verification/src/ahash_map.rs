use ahash::AHashMap;
use vstd::prelude::*;

use crate::xim_repeat::{no_repeats, XimRepeat};

verus! {

/// `ahash::AHashMap`, the hash map that holds the pending XIM key repeats,
/// one per input context.
#[verifier::external_type_specification]
#[verifier::external_body]
#[verifier::reject_recursive_types(K)]
#[verifier::reject_recursive_types(V)]
#[verifier::reject_recursive_types(S)]
pub struct ExAHashMap<K, V, S>(AHashMap<K, V, S>);

/// `ahash::RandomState`, the hasher builder of `AHashMap`.
#[verifier::external_type_specification]
#[verifier::external_body]
pub struct ExAHashRandomState(ahash::RandomState);

/// The entries of a repeat table, by input-context id.
pub uninterp spec fn repeat_entries(table: AHashMap<u64, XimRepeat>) -> Map<u64, XimRepeat>;

/// `AHashMap::new`: the new map holds no entry.
#[verifier::external_body]
pub(crate) fn table_new() -> (table: AHashMap<u64, XimRepeat>)
    ensures
        repeat_entries(table) == no_repeats(),
{
    AHashMap::new()
}

/// `AHashMap::insert`: afterwards `key` maps to `value` and every other key
/// keeps its entry; the value that `key` had, if any, is returned.
#[verifier::external_body]
pub(crate) fn table_insert(table: &mut AHashMap<u64, XimRepeat>, key: u64, value: XimRepeat) -> (prev: Option<XimRepeat>)
    ensures
        repeat_entries(*final(table)) == repeat_entries(*old(table)).insert(key, value),
        prev == (if repeat_entries(*old(table)).dom().contains(key) {
            Some(repeat_entries(*old(table))[key])
        } else {
            None
        }),
{
    table.insert(key, value)
}

/// `AHashMap::remove`: afterwards `key` has no entry and every other key keeps
/// its entry; the value that `key` had, if any, is returned.
#[verifier::external_body]
pub(crate) fn table_remove(table: &mut AHashMap<u64, XimRepeat>, key: u64) -> (prev: Option<XimRepeat>)
    ensures
        repeat_entries(*final(table)) == repeat_entries(*old(table)).remove(key),
        prev == (if repeat_entries(*old(table)).dom().contains(key) {
            Some(repeat_entries(*old(table))[key])
        } else {
            None
        }),
{
    table.remove(&key)
}

/// `AHashMap::get`, with the entry copied out.
#[verifier::external_body]
pub(crate) fn table_get(table: &AHashMap<u64, XimRepeat>, key: u64) -> (res: Option<XimRepeat>)
    ensures
        res == (if repeat_entries(*table).dom().contains(key) {
            Some(repeat_entries(*table)[key])
        } else {
            None
        }),
{
    table.get(&key).copied()
}

/// `HashMap::clear` (reached through `AHashMap`'s `DerefMut`): afterwards the
/// map holds no entry.
#[verifier::external_body]
pub(crate) fn table_clear(table: &mut AHashMap<u64, XimRepeat>)
    ensures
        repeat_entries(*final(table)) == no_repeats(),
{
    table.clear()
}

/// `HashMap::iter` (reached through `AHashMap`'s `Deref`), with each entry
/// copied out: every entry of the map comes out exactly once. The order is
/// that of the map's buckets and is left unsaid.
#[verifier::external_body]
pub(crate) fn table_entries(table: &AHashMap<u64, XimRepeat>) -> (entries: Vec<(u64, XimRepeat)>)
    ensures
        forall|i: int|
            0 <= i < entries@.len() ==> repeat_entries(*table).dom().contains(#[trigger] entries@[i].0)
                && repeat_entries(*table)[entries@[i].0] == entries@[i].1,
        forall|i: int, j: int|
            0 <= i < j < entries@.len() ==> #[trigger] entries@[i].0 != #[trigger] entries@[j].0,
        forall|key: u64|
            #[trigger] repeat_entries(*table).dom().contains(key) ==> exists|i: int|
                0 <= i < entries@.len() && #[trigger] entries@[i].0 == key,
{
    table.iter().map(|(key, value)| (*key, *value)).collect()
}

} // verus!
