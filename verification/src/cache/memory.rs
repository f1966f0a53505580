//! The in-memory (first) level of the K-line cache: a bounded least-recently-used map from
//! `secid:period:adjust` keys to cached series, held in an `lru::LruCache`.
use vstd::prelude::*;
use vstd::string::StringExecFns;
use crate::cache::CachedKline;

verus! {

#[verifier::external_type_specification]
#[verifier::external_body]
#[verifier::reject_recursive_types(K)]
#[verifier::reject_recursive_types(V)]
#[verifier::reject_recursive_types(S)]
pub struct ExLruCache<K, V, S>(lru::LruCache<K, V, S>);

#[verifier::external_type_specification]
#[verifier::external_body]
pub struct ExLruDefaultHasher(lru::DefaultHasher);

/// What an `lru::LruCache` of K-lines holds: its (key, entry) pairs, most recently used
/// first.
pub uninterp spec fn lru_entries(c: lru::LruCache<String, CachedKline>) -> Seq<(Seq<char>, CachedKline)>;

/// The capacity an `lru::LruCache` of K-lines was made with.
pub uninterp spec fn lru_capacity(c: lru::LruCache<String, CachedKline>) -> nat;

/// Number of series the memory level keeps.
pub const MEMORY_CACHE_SIZE: usize = 100;

/// `es` holds `k` as a key.
pub open spec fn has_key(es: Seq<(Seq<char>, CachedKline)>, k: Seq<char>) -> bool {
    exists|i: int| 0 <= i < es.len() && #[trigger] es[i].0 == k
}

/// The position of key `k` in `es` (meaningful when `has_key(es, k)`).
pub open spec fn index_of_key(es: Seq<(Seq<char>, CachedKline)>, k: Seq<char>) -> int {
    choose|i: int| 0 <= i < es.len() && #[trigger] es[i].0 == k
}

/// No key occurs twice in `es`.
pub open spec fn keys_distinct(es: Seq<(Seq<char>, CachedKline)>) -> bool {
    forall|i: int, j: int| 0 <= i < es.len() && 0 <= j < es.len() && i != j ==> #[trigger] es[i].0 != #[trigger] es[j].0
}

/// The entries after the one at position `i` is used: it moves to the front.
pub open spec fn touched(es: Seq<(Seq<char>, CachedKline)>, i: int) -> Seq<(Seq<char>, CachedKline)> {
    seq![es[i]].add(es.remove(i))
}

/// The entries after `(k, v)` is put into a cache of capacity `cap`: an entry with key `k`
/// is replaced and moves to the front; otherwise the new entry goes to the front and, when
/// the cache is full, the least recently used entry (the last) leaves.
pub open spec fn after_put(es: Seq<(Seq<char>, CachedKline)>, k: Seq<char>, v: CachedKline, cap: nat) -> Seq<(Seq<char>, CachedKline)> {
    if has_key(es, k) {
        seq![(k, v)].add(es.remove(index_of_key(es, k)))
    } else if es.len() == cap {
        seq![(k, v)].add(es.drop_last())
    } else {
        seq![(k, v)].add(es)
    }
}

/// Makes an empty LRU cache that holds at most `cap` entries (`lru::LruCache::new`).
#[verifier::external_body]
fn lru_new(cap: usize) -> (c: lru::LruCache<String, CachedKline>)
    requires
        cap > 0,
    ensures
        lru_entries(c) == Seq::<(Seq<char>, CachedKline)>::empty(),
        lru_capacity(c) == cap,
{
    lru::LruCache::new(std::num::NonZeroUsize::new(cap).unwrap())
}

/// `lru::LruCache::get`: the value under `key`, if any; a found entry becomes the most
/// recently used. The value is handed out as a copy.
#[verifier::external_body]
fn lru_get(c: &mut lru::LruCache<String, CachedKline>, key: &String) -> (r: Option<CachedKline>)
    requires
        keys_distinct(lru_entries(*old(c))),
    ensures
        lru_capacity(*final(c)) == lru_capacity(*old(c)),
        has_key(lru_entries(*old(c)), key@) ==> {
            let es = lru_entries(*old(c));
            let i = index_of_key(es, key@);
            &&& r == Some(es[i].1)
            &&& lru_entries(*final(c)) == touched(es, i)
        },
        !has_key(lru_entries(*old(c)), key@) ==> {
            &&& r is None
            &&& lru_entries(*final(c)) == lru_entries(*old(c))
        },
{
    c.get(key).cloned()
}

/// `lru::LruCache::pop`: removes the entry under `key` and returns its value, if any.
#[verifier::external_body]
fn lru_pop(c: &mut lru::LruCache<String, CachedKline>, key: &String) -> (r: Option<CachedKline>)
    requires
        keys_distinct(lru_entries(*old(c))),
    ensures
        lru_capacity(*final(c)) == lru_capacity(*old(c)),
        has_key(lru_entries(*old(c)), key@) ==> {
            let es = lru_entries(*old(c));
            let i = index_of_key(es, key@);
            &&& r == Some(es[i].1)
            &&& lru_entries(*final(c)) == es.remove(i)
        },
        !has_key(lru_entries(*old(c)), key@) ==> {
            &&& r is None
            &&& lru_entries(*final(c)) == lru_entries(*old(c))
        },
{
    c.pop(key)
}

/// `lru::LruCache::put`: stores `v` under `key` as the most recently used entry, evicting
/// the least recently used one when a new key finds the cache full; returns the value
/// that `key` held before, if any.
#[verifier::external_body]
fn lru_put(c: &mut lru::LruCache<String, CachedKline>, key: String, v: CachedKline) -> (r: Option<CachedKline>)
    requires
        keys_distinct(lru_entries(*old(c))),
        lru_entries(*old(c)).len() <= lru_capacity(*old(c)),
    ensures
        lru_capacity(*final(c)) == lru_capacity(*old(c)),
        lru_entries(*final(c)) == after_put(lru_entries(*old(c)), key@, v, lru_capacity(*old(c))),
        has_key(lru_entries(*old(c)), key@) ==> r == Some(
            lru_entries(*old(c))[index_of_key(lru_entries(*old(c)), key@)].1,
        ),
        !has_key(lru_entries(*old(c)), key@) ==> r is None,
{
    c.put(key, v)
}

/// The memory key of a series: `secid:period:adjust`.
pub open spec fn kline_key(secid: Seq<char>, period: Seq<char>, adjust: Seq<char>) -> Seq<char> {
    secid + ":"@ + period + ":"@ + adjust
}

/// The memory key of a cached series.
pub open spec fn key_of(k: CachedKline) -> Seq<char> {
    kline_key(k.secid@, k.period@, k.adjust@)
}

/// Builds the memory key `secid:period:adjust`.
pub fn cache_key(secid: &str, period: &str, adjust: &str) -> (r: String)
    ensures
        r@ == kline_key(secid@, period@, adjust@),
{
    let sep = ":";
    proof {
        reveal_strlit(":");
    }
    let mut k = secid.to_owned();
    k.append(sep);
    k.append(period);
    k.append(sep);
    k.append(adjust);
    k
}

/// The result of a memory lookup of `key` at time `now`, and the entries afterwards: a
/// fresh entry is returned and becomes the most recently used; an expired one is removed.
pub open spec fn lookup_outcome(es: Seq<(Seq<char>, CachedKline)>, key: Seq<char>, now: int) -> (Option<CachedKline>, Seq<(Seq<char>, CachedKline)>) {
    if has_key(es, key) {
        let i = index_of_key(es, key);
        if now - es[i].1.cached_at < es[i].1.ttl {
            (Some(es[i].1), touched(es, i))
        } else {
            (None, es.remove(i))
        }
    } else {
        (None, es)
    }
}

/// The memory level of the K-line cache.
pub struct KlineMemoryCache {
    lru: lru::LruCache<String, CachedKline>,
}

impl KlineMemoryCache {
    /// The cached series, most recently used first.
    pub closed spec fn entries(&self) -> Seq<(Seq<char>, CachedKline)> {
        lru_entries(self.lru)
    }

    /// Keys are distinct and there are at most `MEMORY_CACHE_SIZE` entries.
    pub closed spec fn wf(&self) -> bool {
        &&& keys_distinct(lru_entries(self.lru))
        &&& lru_capacity(self.lru) == MEMORY_CACHE_SIZE
        &&& lru_entries(self.lru).len() <= MEMORY_CACHE_SIZE
    }

    /// An empty memory level.
    pub fn new() -> (c: Self)
        ensures
            c.wf(),
            c.entries() == Seq::<(Seq<char>, CachedKline)>::empty(),
    {
        KlineMemoryCache { lru: lru_new(MEMORY_CACHE_SIZE) }
    }

    /// Looks up the series of `secid`/`period`/`adjust` at time `now` (seconds): a fresh
    /// entry is returned; an expired one is dropped and `None` is returned.
    pub fn lookup(&mut self, secid: &str, period: &str, adjust: &str, now: i64) -> (r: Option<CachedKline>)
        requires
            old(self).wf(),
        ensures
            final(self).wf(),
            (r, final(self).entries()) == lookup_outcome(old(self).entries(), kline_key(secid@, period@, adjust@), now as int),
    {
        let key = cache_key(secid, period, adjust);
        let ghost es = lru_entries(self.lru);
        let got = lru_get(&mut self.lru, &key);
        match got {
            Some(k) => {
                if k.is_fresh_at(now) {
                    proof {
                        lemma_touched_distinct(es, index_of_key(es, key@));
                    }
                    Some(k)
                } else {
                    proof {
                        lemma_touched_distinct(es, index_of_key(es, key@));
                        let t = touched(es, index_of_key(es, key@));
                        assert(has_key(t, key@)) by {
                            assert(t[0].0 == key@);
                        }
                        assert(index_of_key(t, key@) == 0);
                        assert(t.remove(0) =~= es.remove(index_of_key(es, key@)));
                    }
                    let _ = lru_pop(&mut self.lru, &key);
                    proof {
                        lemma_remove_distinct(es, index_of_key(es, key@));
                    }
                    None
                }
            },
            None => None,
        }
    }

    /// Stores a series as the most recently used entry under its key.
    pub fn store(&mut self, kline: CachedKline)
        requires
            old(self).wf(),
        ensures
            final(self).wf(),
            final(self).entries() == after_put(old(self).entries(), key_of(kline), kline, MEMORY_CACHE_SIZE as nat),
    {
        let key = cache_key(kline.secid.as_str(), kline.period.as_str(), kline.adjust.as_str());
        let ghost es = lru_entries(self.lru);
        proof {
            lemma_after_put_distinct(es, key@, kline, MEMORY_CACHE_SIZE as nat);
        }
        let _ = lru_put(&mut self.lru, key, kline);
    }
}

/// Moving an entry to the front keeps the keys distinct.
proof fn lemma_touched_distinct(es: Seq<(Seq<char>, CachedKline)>, i: int)
    requires
        keys_distinct(es),
        0 <= i < es.len(),
    ensures
        keys_distinct(touched(es, i)),
        touched(es, i).len() == es.len(),
        touched(es, i)[0] == es[i],
{
    let t = touched(es, i);
    assert forall|a: int, b: int| 0 <= a < t.len() && 0 <= b < t.len() && a != b implies #[trigger] t[a].0 != #[trigger] t[b].0 by {
        let ia = if a == 0 { i } else if a - 1 < i { a - 1 } else { a };
        let ib = if b == 0 { i } else if b - 1 < i { b - 1 } else { b };
        assert(t[a] == es[ia]);
        assert(t[b] == es[ib]);
    }
}

/// Removing an entry keeps the keys distinct.
proof fn lemma_remove_distinct(es: Seq<(Seq<char>, CachedKline)>, i: int)
    requires
        keys_distinct(es),
        0 <= i < es.len(),
    ensures
        keys_distinct(es.remove(i)),
{
    let t = es.remove(i);
    assert forall|a: int, b: int| 0 <= a < t.len() && 0 <= b < t.len() && a != b implies #[trigger] t[a].0 != #[trigger] t[b].0 by {
        let ia = if a < i { a } else { a + 1 };
        let ib = if b < i { b } else { b + 1 };
        assert(t[a] == es[ia]);
        assert(t[b] == es[ib]);
    }
}

/// A put keeps the keys distinct and the size within the capacity, and leaves the put
/// entry at the front.
pub proof fn lemma_after_put_distinct(es: Seq<(Seq<char>, CachedKline)>, k: Seq<char>, v: CachedKline, cap: nat)
    requires
        keys_distinct(es),
        es.len() <= cap,
        cap > 0,
    ensures
        keys_distinct(after_put(es, k, v, cap)),
        after_put(es, k, v, cap).len() <= cap,
        after_put(es, k, v, cap)[0] == (k, v),
        has_key(after_put(es, k, v, cap), k),
        index_of_key(after_put(es, k, v, cap), k) == 0,
{
    let t = after_put(es, k, v, cap);
    let rest = if has_key(es, k) {
        es.remove(index_of_key(es, k))
    } else if es.len() == cap {
        es.drop_last()
    } else {
        es
    };
    assert(t =~= seq![(k, v)].add(rest));
    if has_key(es, k) {
        lemma_remove_distinct(es, index_of_key(es, k));
    }
    assert(forall|j: int| 0 <= j < rest.len() ==> #[trigger] rest[j].0 != k) by {
        if has_key(es, k) {
            let i = index_of_key(es, k);
            assert forall|j: int| 0 <= j < rest.len() implies #[trigger] rest[j].0 != k by {
                let ij = if j < i { j } else { j + 1 };
                assert(rest[j] == es[ij]);
            }
        } else {
            assert forall|j: int| 0 <= j < rest.len() implies #[trigger] rest[j].0 != k by {
                assert(rest[j] == es[j]);
            }
        }
    }
    assert(keys_distinct(rest)) by {
        if !has_key(es, k) && es.len() == cap {
            assert forall|a: int, b: int| 0 <= a < rest.len() && 0 <= b < rest.len() && a != b implies #[trigger] rest[a].0 != #[trigger] rest[b].0 by {
                assert(rest[a] == es[a]);
                assert(rest[b] == es[b]);
            }
        }
    }
    assert forall|a: int, b: int| 0 <= a < t.len() && 0 <= b < t.len() && a != b implies #[trigger] t[a].0 != #[trigger] t[b].0 by {
        if a > 0 && b > 0 {
            assert(t[a] == rest[a - 1]);
            assert(t[b] == rest[b - 1]);
        } else if a == 0 {
            assert(t[b] == rest[b - 1]);
        } else {
            assert(t[a] == rest[a - 1]);
        }
    }
    assert(t[0].0 == k);
    assert(has_key(t, k));
    let c = index_of_key(t, k);
    assert(0 <= c < t.len() && t[c].0 == k);
}

/// What a store then a lookup of the same series gives: the stored series while it is
/// fresh at the lookup time, and nothing once it has expired.
pub proof fn lemma_store_then_lookup(es: Seq<(Seq<char>, CachedKline)>, kline: CachedKline, now: int)
    requires
        keys_distinct(es),
        es.len() <= MEMORY_CACHE_SIZE,
    ensures
        lookup_outcome(after_put(es, key_of(kline), kline, MEMORY_CACHE_SIZE as nat), key_of(kline), now).0
            == (if now - kline.cached_at < kline.ttl { Some(kline) } else { None::<CachedKline> }),
{
    lemma_after_put_distinct(es, key_of(kline), kline, MEMORY_CACHE_SIZE as nat);
}

} // verus!
