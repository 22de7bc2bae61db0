//! The cache of page types that were built, by the number of their type.
//!
//! The cache is a [`DashMap`]. Verus does not look inside it: what it holds is
//! named by [`cache_entries`], and the four functions at the end of this file
//! are the only places where the map is touched. Their contracts are taken
//! on trust from the map's documentation; everything else in the crate is
//! proved against them.

use crate::instances::ConcretePageType;
use dashmap::DashMap;
use std::sync::Arc;
use vstd::prelude::*;

verus! {

/// Makes [`DashMap`] known to the verifier, as a type whose values it cannot
/// look into.
#[verifier::external_type_specification]
#[verifier::external_body]
#[verifier::reject_recursive_types(K)]
#[verifier::reject_recursive_types(V)]
#[verifier::reject_recursive_types(S)]
pub struct ExDashMap<K, V, S>(DashMap<K, V, S>);

/// The page types that were built, by the number of their type.
pub type ObjectCache = DashMap<u64, Arc<ConcretePageType>>;

/// What a cache holds: for each number that has an entry, the page type that
/// was stored under it last.
pub uninterp spec fn cache_entries(cache: DashMap<u64, Arc<ConcretePageType>>) -> Map<
    u64,
    Arc<ConcretePageType>,
>;

/// What an empty cache holds.
pub open spec fn no_entries() -> Map<u64, Arc<ConcretePageType>> {
    Map::empty()
}

/// What is stored under `id`, if anything.
pub open spec fn entry_at(entries: Map<u64, Arc<ConcretePageType>>, id: u64) -> Option<
    Arc<ConcretePageType>,
> {
    if entries.contains_key(id) {
        Some(entries[id])
    } else {
        None
    }
}

/// A cache that held `before` and now holds `after` has only grown: what it
/// held, it still holds under the same number.
pub open spec fn is_grown(
    before: Map<u64, Arc<ConcretePageType>>,
    after: Map<u64, Arc<ConcretePageType>>,
) -> bool {
    forall|id: u64| #[trigger]
        before.contains_key(id) ==> after.contains_key(id) && after[id] == before[id]
}

/// `pages` lists what `entries` holds: every entry once, and nothing else. The
/// order is any.
pub open spec fn is_enumeration(
    pages: Seq<(u64, Arc<ConcretePageType>)>,
    entries: Map<u64, Arc<ConcretePageType>>,
) -> bool {
    &&& forall|i: int|
        0 <= i < pages.len() ==> entry_at(entries, (#[trigger] pages[i]).0) == Some(pages[i].1)
    &&& forall|i: int, j: int|
        0 <= i < j < pages.len() ==> (#[trigger] pages[i]).0 != (#[trigger] pages[j]).0
    &&& forall|id: u64| #[trigger]
        entries.contains_key(id) ==> exists|i: int|
            0 <= i < pages.len() && (#[trigger] pages[i]).0 == id
}

/// A cache without entries.
///
/// This is `DashMap::new`, which makes an empty map.
#[verifier::external_body]
pub(crate) fn empty_cache() -> (made: ObjectCache)
    ensures
        cache_entries(made) == no_entries(),
{
    DashMap::new()
}

/// The page type stored under `id`, if there is one.
///
/// This is `DashMap::get`, which finds the entry whose key equals the one
/// given; the reference it returns is turned into another reference to the
/// same page type and let go at once.
#[verifier::external_body]
pub(crate) fn lookup(cache: &ObjectCache, id: u64) -> (found: Option<Arc<ConcretePageType>>)
    ensures
        found == entry_at(cache_entries(*cache), id),
{
    match cache.get(&id) {
        Some(entry) => Some(Arc::clone(entry.value())),
        None => None,
    }
}

/// Stores `page` under `id` and returns what was stored there before.
///
/// This is `DashMap::insert`, which replaces the value of an occupied entry
/// and returns the old one, or fills a vacant entry and returns nothing. The
/// map is taken by unique reference, so that nothing else changes it
/// meanwhile.
#[verifier::external_body]
pub(crate) fn remember(cache: &mut ObjectCache, id: u64, page: Arc<ConcretePageType>) -> (previous:
    Option<Arc<ConcretePageType>>)
    ensures
        cache_entries(*final(cache)) == cache_entries(*old(cache)).insert(id, page),
        previous == entry_at(cache_entries(*old(cache)), id),
{
    cache.insert(id, page)
}

/// Everything that the cache holds, in the order in which the map hands it
/// out.
///
/// This is `DashMap::iter`, which walks the map's shards and yields every
/// entry once. The order depends on the map's hasher and is not promised:
/// the contract claims only that the list is an enumeration of the entries.
#[verifier::external_body]
pub(crate) fn enumerate(cache: &ObjectCache) -> (pages: Vec<(u64, Arc<ConcretePageType>)>)
    ensures
        is_enumeration(pages@, cache_entries(*cache)),
{
    cache.iter().map(|entry| (*entry.key(), Arc::clone(entry.value()))).collect()
}

} // verus!
