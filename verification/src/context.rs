//! Ring-context cache.
//!
//! Deriving a proving/verifying context for a ring size is expensive: the
//! whole reference string is reprocessed. This module keeps derived
//! contexts in a bounded least-recently-used cache keyed by ring size. A
//! context is a pure function of the reference string and the ring size,
//! so a cache hit is interchangeable with a fresh derivation; the cache
//! contract states exactly that, together with the recency bookkeeping.
//!
//! The cache structure itself comes from the `lru` crate and stands behind
//! trusted wrappers; the bookkeeping around it is verified.

use vstd::prelude::*;

use crate::ring_backend::{
    max_ring_of, params_of_seed, params_repr, pcs_params_from_bytes, pcs_params_from_seed,
    pcs_parses, pcs_supports, ring_context_clone, ring_context_from_params, setup_of, setup_repr,
    PcsParams, RingContext, MAX_RING_SIZE_BOUND,
};

verus! {

/// The ring size warmed up by default, matching the consuming protocol's
/// validator-set size.
pub const DEFAULT_RING_SIZE: usize = 1023;

/// How many distinct ring sizes the cache retains by default.
pub const DEFAULT_CACHE_CAPACITY: usize = 10;

/// The cache collection: derived contexts keyed by ring size, held in an
/// `lru::LruCache` that Verus sees only through the names and trusted
/// wrappers below.
#[verifier::external_body]
struct SetupCache(lru::LruCache<usize, RingContext>);

/// The cached ring sizes in recency order, most recently used first.
pub uninterp spec fn cache_keys(c: SetupCache) -> Seq<int>;

/// The cached contexts, each given by its serialization, keyed by ring size.
pub uninterp spec fn cache_val(c: SetupCache) -> Map<int, Seq<u8>>;

/// The capacity the cache was created with.
pub uninterp spec fn cache_cap(c: SetupCache) -> int;

/// `s` with every occurrence of `k` removed, order kept.
pub open spec fn without(s: Seq<int>, k: int) -> Seq<int>
    decreases s.len(),
{
    if s.len() == 0 {
        Seq::empty()
    } else if s[0] == k {
        without(s.drop_first(), k)
    } else {
        seq![s[0]] + without(s.drop_first(), k)
    }
}

/// `s` reordered so that `k` is most recent, as a cache hit leaves it.
pub open spec fn promote(s: Seq<int>, k: int) -> Seq<int> {
    seq![k] + without(s, k)
}

proof fn lemma_without_membership(s: Seq<int>, k: int, x: int)
    ensures
        without(s, k).contains(x) <==> (s.contains(x) && x != k),
    decreases s.len(),
{
    if s.len() > 0 {
        let d = s.drop_first();
        lemma_without_membership(d, k, x);
        assert(s.contains(x) <==> (x == s[0] || d.contains(x))) by {
            if s.contains(x) {
                let j = choose|j: int| 0 <= j < s.len() && s[j] == x;
                if j > 0 {
                    assert(d[j - 1] == x);
                    assert(d.contains(d[j - 1]));
                }
            }
            if d.contains(x) {
                let j = choose|j: int| 0 <= j < d.len() && d[j] == x;
                assert(s[j + 1] == x);
                assert(s.contains(s[j + 1]));
            }
            assert(s.contains(s[0]));
        }
        if s[0] != k {
            let w = without(s, k);
            let t = without(d, k);
            assert(w == seq![s[0]] + t);
            assert(w.contains(x) <==> (x == s[0] || t.contains(x))) by {
                if w.contains(x) {
                    let j = choose|j: int| 0 <= j < w.len() && w[j] == x;
                    if j > 0 {
                        assert(t[j - 1] == x);
                        assert(t.contains(t[j - 1]));
                    }
                }
                if t.contains(x) {
                    let j = choose|j: int| 0 <= j < t.len() && t[j] == x;
                    assert(w[j + 1] == x);
                    assert(w.contains(w[j + 1]));
                }
                assert(w[0] == s[0]);
                assert(w.contains(w[0]));
            }
        }
    }
}

proof fn lemma_without_len(s: Seq<int>, k: int)
    ensures
        without(s, k).len() <= s.len(),
        s.contains(k) ==> without(s, k).len() < s.len(),
    decreases s.len(),
{
    if s.len() > 0 {
        lemma_without_len(s.drop_first(), k);
        if s.contains(k) && s[0] != k {
            let j = choose|j: int| 0 <= j < s.len() && s[j] == k;
            assert(s.drop_first()[j - 1] == k);
        }
    }
}

proof fn lemma_without_no_duplicates(s: Seq<int>, k: int)
    requires
        s.no_duplicates(),
    ensures
        without(s, k).no_duplicates(),
    decreases s.len(),
{
    if s.len() > 0 {
        assert(s.drop_first().no_duplicates());
        lemma_without_no_duplicates(s.drop_first(), k);
        if s[0] != k {
            lemma_without_membership(s.drop_first(), k, s[0]);
            if s.drop_first().contains(s[0]) {
                let j = choose|j: int|
                    0 <= j < s.drop_first().len() && s.drop_first()[j] == s[0];
                assert(s[j + 1] == s[0]);
            }
            let w = without(s, k);
            let t = without(s.drop_first(), k);
            assert forall|i: int, j: int| 0 <= i < j < w.len() implies w[i] != w[j] by {
                if i == 0 {
                    assert(w[j] == t[j - 1]);
                    assert(t.contains(t[j - 1]));
                } else {
                    assert(w[i] == t[i - 1] && w[j] == t[j - 1]);
                }
            }
        }
    }
}

/// What holds of every cached ring size `k`: it is within the backend
/// guard, its context is stored, and that context is exactly the one
/// derived from this cache's reference string for `k`.
pub open spec fn cached_entry_ok(params: Seq<u8>, val: Map<int, Seq<u8>>, k: int) -> bool {
    &&& 0 <= k <= MAX_RING_SIZE_BOUND
    &&& val.dom().contains(k)
    &&& val[k] == setup_of(params, k)
    &&& pcs_supports(params, k)
    &&& max_ring_of(setup_of(params, k)) >= k
}

/// Why a context could not be produced.
#[derive(Debug, PartialEq, Eq, Structural, Clone, Copy)]
pub enum RingContextError {
    /// The serialized reference string did not deserialize.
    MalformedReferenceString,
    /// The reference string is too small for the requested ring size, or
    /// the size is beyond the backend guard.
    UnsupportedRingSize,
}

/// Relies on `lru::LruCache::new`: an empty cache with the given capacity.
#[verifier::external_body]
fn cache_new(cap: usize) -> (r: SetupCache)
    requires
        1 <= cap,
    ensures
        cache_cap(r) == cap,
        cache_keys(r) == Seq::<int>::empty(),
{
    SetupCache(lru::LruCache::new(std::num::NonZeroUsize::new(cap).unwrap()))
}

/// Relies on `lru::LruCache::get`: returns the entry for the key if
/// present and moves it to the most-recent position; values and capacity
/// are untouched, and on a miss nothing changes.
#[verifier::external_body]
fn cache_get<'a>(c: &'a mut SetupCache, k: usize) -> (r: Option<&'a RingContext>)
    ensures
        cache_cap(*final(c)) == cache_cap(*old(c)),
        cache_val(*final(c)) == cache_val(*old(c)),
        r is Some <==> cache_keys(*old(c)).contains(k as int),
        r is None ==> cache_keys(*final(c)) == cache_keys(*old(c)),
        r is Some ==> setup_repr(*r.unwrap()) == cache_val(*old(c))[k as int]
            && cache_keys(*final(c)) == promote(cache_keys(*old(c)), k as int),
{
    c.0.get(&k)
}

/// Relies on `lru::LruCache::put`: inserts or updates the entry at the
/// most-recent position; when a new key arrives with the cache full, the
/// least recently used entry is dropped.
#[verifier::external_body]
fn cache_put(c: &mut SetupCache, k: usize, v: RingContext)
    ensures
        cache_cap(*final(c)) == cache_cap(*old(c)),
        cache_keys(*old(c)).contains(k as int) ==> cache_keys(*final(c)) == promote(cache_keys(*old(c)), k as int) && cache_val(*final(c)) == cache_val(*old(c)).insert(k as int, setup_repr(v)),
        !cache_keys(*old(c)).contains(k as int) && cache_keys(*old(c)).len() < cache_cap(*old(c))
            ==> cache_keys(*final(c)) == seq![k as int] + cache_keys(*old(c)) && cache_val(
            *final(c),
        ) == cache_val(*old(c)).insert(k as int, setup_repr(v)),
        !cache_keys(*old(c)).contains(k as int) && cache_keys(*old(c)).len() == cache_cap(*old(c))
            ==> cache_keys(*final(c)) == seq![k as int] + cache_keys(*old(c)).drop_last()
            && cache_val(*final(c)) == cache_val(*old(c)).remove(
            cache_keys(*old(c)).last(),
        ).insert(k as int, setup_repr(v)),
{
    c.0.put(k, v);
}

/// The process-wide ring-context registry: the polynomial-commitment
/// parameters loaded once, and a bounded cache of contexts derived from
/// them, keyed by ring size with least-recently-used eviction.
pub struct RingContextCache {
    params: PcsParams,
    cache: SetupCache,
}

impl RingContextCache {
    /// The reference string this cache derives from, by its serialization.
    pub closed spec fn params_id(self) -> Seq<u8> {
        params_repr(self.params)
    }

    /// The cached ring sizes, most recently used first.
    pub closed spec fn cached_sizes(self) -> Seq<int> {
        cache_keys(self.cache)
    }

    /// The capacity the cache was created with.
    pub closed spec fn capacity(self) -> int {
        cache_cap(self.cache)
    }

    /// Cache well-formedness: sizes are distinct and within capacity, and
    /// every cached context is exactly the one derived from this cache's
    /// reference string for its ring size.
    pub closed spec fn wf(self) -> bool {
        &&& 1 <= cache_cap(self.cache)
        &&& cache_keys(self.cache).no_duplicates()
        &&& cache_keys(self.cache).len() <= cache_cap(self.cache)
        &&& forall|j: int|
            0 <= j < cache_keys(self.cache).len() ==> cached_entry_ok(
                params_repr(self.params),
                cache_val(self.cache),
                #[trigger] cache_keys(self.cache)[j],
            )
    }

    /// Build a registry from a serialized reference string.
    ///
    /// Fails exactly when the blob does not deserialize; the cache starts
    /// empty with the given capacity.
    pub fn from_srs_bytes(srs: &[u8], capacity: usize) -> (r: Result<
        RingContextCache,
        RingContextError,
    >)
        requires
            1 <= capacity,
        ensures
            r is Ok <==> pcs_parses(srs@),
            r is Ok ==> r.unwrap().wf() && r.unwrap().capacity() == capacity
                && r.unwrap().cached_sizes() == Seq::<int>::empty(),
            r is Err ==> r->Err_0 == RingContextError::MalformedReferenceString,
    {
        match pcs_params_from_bytes(srs) {
            Ok(params) => Ok(RingContextCache { params, cache: cache_new(capacity) }),
            Err(_) => Err(RingContextError::MalformedReferenceString),
        }
    }

    /// Build a registry from a deterministic seeded reference string able
    /// to hold rings up to `max_ring_size`. Two registries built from the
    /// same seed and size behave alike.
    pub fn from_seed(seed: &[u8], max_ring_size: usize, capacity: usize) -> (r: RingContextCache)
        requires
            seed@.len() == 32,
            1 <= max_ring_size <= MAX_RING_SIZE_BOUND,
            1 <= capacity,
        ensures
            r.wf(),
            r.params_id() == params_of_seed(max_ring_size as int, seed@),
            r.capacity() == capacity,
            r.cached_sizes() == Seq::<int>::empty(),
    {
        RingContextCache {
            params: pcs_params_from_seed(max_ring_size, seed),
            cache: cache_new(capacity),
        }
    }

    /// Fetch the context for a ring size, deriving and caching it on a miss.
    ///
    /// Succeeds exactly when the reference string supports the size; the
    /// returned context always equals the one freshly derived for that
    /// size, whether it came from the cache or was just built. On success
    /// the size becomes the most recently used; on a full-cache miss the
    /// least recently used size is evicted.
    pub fn ring_context(&mut self, ring_size: usize) -> (r: Result<RingContext, RingContextError>)
        requires
            old(self).wf(),
        ensures
            final(self).wf(),
            final(self).params_id() == old(self).params_id(),
            final(self).capacity() == old(self).capacity(),
            r is Ok <==> ring_size <= MAX_RING_SIZE_BOUND && pcs_supports(
                old(self).params_id(),
                ring_size as int,
            ),
            r is Ok ==> setup_repr(r.unwrap()) == setup_of(old(self).params_id(), ring_size as int)
                && max_ring_of(setup_repr(r.unwrap())) >= ring_size,
            r is Err ==> r->Err_0 == RingContextError::UnsupportedRingSize
                && final(self).cached_sizes() == old(self).cached_sizes(),
            old(self).cached_sizes().contains(ring_size as int) ==> r is Ok && final(self).cached_sizes() == promote(old(self).cached_sizes(), ring_size as int),
            r is Ok && !old(self).cached_sizes().contains(ring_size as int) && old(self).cached_sizes().len() < old(self).capacity() ==> final(self).cached_sizes() == seq![
                ring_size as int,
            ] + old(self).cached_sizes(),
            r is Ok && !old(self).cached_sizes().contains(ring_size as int) && old(self).cached_sizes().len() == old(self).capacity() ==> final(self).cached_sizes() == seq![
                ring_size as int,
            ] + old(self).cached_sizes().drop_last(),
    {
        let ghost params_model = params_repr(self.params);
        let ghost keys0 = cache_keys(self.cache);
        let cached: Option<RingContext> = match cache_get(&mut self.cache, ring_size) {
            Some(v) => Some(ring_context_clone(v)),
            None => None,
        };
        match cached {
            Some(ctx) => {
                proof {
                    let j = choose|j: int| 0 <= j < keys0.len() && keys0[j] == ring_size as int;
                    lemma_without_no_duplicates(keys0, ring_size as int);
                    lemma_without_len(keys0, ring_size as int);
                    assert forall|i: int|
                        0 <= i < cache_keys(self.cache).len() implies cache_keys(self.cache)[i]
                        == ring_size as int || keys0.contains(cache_keys(self.cache)[i]) by {
                        if i > 0 {
                            let w = without(keys0, ring_size as int);
                            assert(cache_keys(self.cache)[i] == w[i - 1]);
                            assert(w.contains(w[i - 1]));
                            lemma_without_membership(keys0, ring_size as int, w[i - 1]);
                        }
                    }
                    assert(promote(keys0, ring_size as int).no_duplicates()) by {
                        let w = without(keys0, ring_size as int);
                        lemma_without_membership(keys0, ring_size as int, ring_size as int);
                        assert(!w.contains(ring_size as int));
                        assert forall|i: int, j: int|
                            0 <= i < j < promote(keys0, ring_size as int).len() implies promote(
                            keys0,
                            ring_size as int,
                        )[i] != promote(keys0, ring_size as int)[j] by {
                            if i == 0 {
                                assert(promote(keys0, ring_size as int)[j] == w[j - 1]);
                                assert(w.contains(w[j - 1]));
                            }
                        }
                    }
                }
                Ok(ctx)
            }
            None => {
                if ring_size > MAX_RING_SIZE_BOUND {
                    return Err(RingContextError::UnsupportedRingSize);
                }
                match ring_context_from_params(&self.params, ring_size) {
                    Ok(ctx) => {
                        let out = ring_context_clone(&ctx);
                        cache_put(&mut self.cache, ring_size, ctx);
                        proof {
                            if keys0.len() == cache_cap(self.cache) {
                                assert(keys0.len() > 0);
                                let dropped = keys0.drop_last();
                                assert forall|i: int|
                                    0 <= i < cache_keys(self.cache).len() implies cache_keys(
                                    self.cache,
                                )[i] == ring_size as int || (keys0.contains(
                                    cache_keys(self.cache)[i],
                                ) && cache_keys(self.cache)[i] != keys0.last()) by {
                                    if i > 0 {
                                        assert(cache_keys(self.cache)[i] == dropped[i - 1]);
                                        assert(keys0[i - 1] == dropped[i - 1]);
                                        if dropped[i - 1] == keys0.last() {
                                            assert(keys0[i - 1] == keys0[keys0.len() - 1]);
                                        }
                                    }
                                }
                                assert(cache_keys(self.cache).no_duplicates()) by {
                                    assert forall|i: int, j: int|
                                        0 <= i < j < cache_keys(self.cache).len() implies
                                        cache_keys(self.cache)[i] != cache_keys(self.cache)[j] by {
                                        if i == 0 {
                                            assert(cache_keys(self.cache)[j] == keys0[j - 1]);
                                            assert(keys0.contains(keys0[j - 1]));
                                        } else {
                                            assert(cache_keys(self.cache)[i] == keys0[i - 1]);
                                            assert(cache_keys(self.cache)[j] == keys0[j - 1]);
                                        }
                                    }
                                }
                            } else {
                                assert forall|i: int, j: int|
                                    0 <= i < j < cache_keys(self.cache).len() implies cache_keys(
                                    self.cache,
                                )[i] != cache_keys(self.cache)[j] by {
                                    if i == 0 {
                                        assert(cache_keys(self.cache)[j] == keys0[j - 1]);
                                        assert(keys0.contains(keys0[j - 1]));
                                    } else {
                                        assert(cache_keys(self.cache)[i] == keys0[i - 1]);
                                        assert(cache_keys(self.cache)[j] == keys0[j - 1]);
                                    }
                                }
                            }
                        }
                        Ok(out)
                    }
                    Err(_) => Err(RingContextError::UnsupportedRingSize),
                }
            }
        }
    }
}

} // verus!
