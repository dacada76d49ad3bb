//! The cache of recently seen gossip message ids: an `lru::LruCache` keyed by
//! message id.
//!
//! The cache is described by two things: the ids it holds, most recently used
//! first, and the bound it was made with.

use libp2p::gossipsub::MessageId;
use lru::LruCache;
use vstd::prelude::*;

verus! {

/// The cache of the `lru` crate.
#[verifier::external_type_specification]
#[verifier::external_body]
#[verifier::reject_recursive_types(K)]
#[verifier::reject_recursive_types(V)]
#[verifier::reject_recursive_types(S)]
pub struct ExLruCache<K, V, S>(LruCache<K, V, S>);

/// The hasher that a cache of the `lru` crate uses unless told otherwise.
#[verifier::external_type_specification]
#[verifier::external_body]
pub struct ExDefaultHasher(lru::DefaultHasher);

/// The ids a cache holds, the most recently used first.
pub uninterp spec fn lru_keys(cache: LruCache<MessageId, ()>) -> Seq<MessageId>;

/// The number of ids a cache was made to hold at most.
pub uninterp spec fn lru_cap(cache: LruCache<MessageId, ()>) -> nat;

/// The ids held after `id` is put into a cache that holds `keys` and is
/// bounded by `cap`: an id already held moves to the front; a new id goes to
/// the front, and the least recently used id leaves if the cache was full; a
/// cache bounded by zero stays empty.
pub open spec fn keys_after_put(keys: Seq<MessageId>, cap: nat, id: MessageId) -> Seq<MessageId> {
    if keys.contains(id) {
        seq![id] + keys.remove_value(id)
    } else if cap == 0 {
        keys
    } else if keys.len() >= cap {
        seq![id] + keys.drop_last()
    } else {
        seq![id] + keys
    }
}

/// The largest bound a cache is made with here. The table behind a cache is
/// sized for the bound when the cache is made; up to this bound the size is
/// far from what the table refuses.
pub const MAX_CACHE_BOUND: usize = 1_048_576;

/// `LruCache::new`: an empty cache bounded by `cap`.
#[verifier::external_body]
pub(crate) fn lru_new(cap: usize) -> (cache: LruCache<MessageId, ()>)
    requires
        cap <= MAX_CACHE_BOUND,
    ensures
        lru_keys(cache) == Seq::<MessageId>::empty(),
        lru_cap(cache) == cap,
{
    LruCache::new(cap)
}

/// `LruCache::put` of `id`, with the unit value. It leaves the cache holding
/// `keys_after_put`: `put` moves a held key to the front of its list, and
/// otherwise inserts at the front after dropping the entry at the back of a
/// full cache; with a bound of zero it does nothing.
#[verifier::external_body]
pub(crate) fn lru_put(cache: &mut LruCache<MessageId, ()>, id: &MessageId)
    ensures
        lru_keys(*final(cache)) == keys_after_put(
            lru_keys(*old(cache)),
            lru_cap(*old(cache)),
            *id,
        ),
        lru_cap(*final(cache)) == lru_cap(*old(cache)),
{
    cache.put(id.clone(), ());
}

/// `LruCache::len`: the number of ids held.
#[verifier::external_body]
pub(crate) fn lru_len(cache: &LruCache<MessageId, ()>) -> (n: usize)
    ensures
        n == lru_keys(*cache).len(),
{
    cache.len()
}

} // verus!
