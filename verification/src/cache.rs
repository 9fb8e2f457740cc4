//! Expiring key-value cache.
//!
//! Each namespace of the relay (remote project titles, label titles, and the
//! target-system client / project / task / tag identifiers) keeps its own
//! `Cache`.  An entry records the time it was written; a read treats an entry
//! older than the cache's time-to-live as a miss but leaves it in place.
//! The cache is modelled as a map from key views to timestamped entries.

use vstd::prelude::*;

verus! {

/// Time-to-live used by every namespace of the relay: five minutes,
/// in milliseconds.
pub const DEFAULT_TTL_MS: u64 = 300_000;

/// A cached value together with the time (in milliseconds) it was written.
pub struct CacheItem<T> {
    pub time: u64,
    pub value: T,
}

/// A cache key: a type with a mathematical view whose equality the
/// executable comparison decides exactly.
pub trait CacheKey: View + Sized {
    fn key_eq(&self, other: &Self) -> (b: bool)
        ensures
            b == (self@ == other@),
    ;
}

impl CacheKey for String {
    fn key_eq(&self, other: &Self) -> (b: bool) {
        *self == *other
    }
}

/// A key scoped by the identifier of a parent entity: projects are looked up
/// by (client id, name) and tasks by (project id, name).
pub struct ScopeKey {
    pub scope: i64,
    pub name: String,
}

impl View for ScopeKey {
    type V = (int, Seq<char>);

    open spec fn view(&self) -> (int, Seq<char>) {
        (self.scope as int, self.name@)
    }
}

impl CacheKey for ScopeKey {
    fn key_eq(&self, other: &Self) -> (b: bool) {
        self.scope == other.scope && self.name == other.name
    }
}

/// An expiring map from keys to values.  Entries are overwritten, never
/// merged; a stale entry answers as a miss but is not removed.
pub struct Cache<K, T> {
    entries: Vec<(K, CacheItem<T>)>,
    ttl: u64,
}

/// The map described by a sequence of entries, later entries winning.
pub open spec fn map_of<K: View, T>(s: Seq<(K, CacheItem<T>)>) -> Map<K::V, CacheItem<T>>
    decreases s.len(),
{
    if s.len() == 0 {
        Map::empty()
    } else {
        map_of(s.drop_last()).insert(s.last().0@, s.last().1)
    }
}

/// Whether an entry written at `time` is still fresh when read at `now`
/// under time-to-live `ttl`.
pub open spec fn fresh_at(time: u64, now: u64, ttl: u64) -> bool {
    (now as int) < time + ttl
}

/// What a read of `key` at time `now` answers on a cache whose entries form
/// the map `m`: the stored value if the entry is fresh, a miss otherwise.
pub open spec fn lookup<KV, T>(m: Map<KV, CacheItem<T>>, ttl: u64, key: KV, now: u64) -> Option<
    T,
> {
    if m.contains_key(key) && fresh_at(m[key].time, now, ttl) {
        Some(m[key].value)
    } else {
        None
    }
}

impl<K: View, T> Cache<K, T> {
    /// Entry keys are pairwise distinct, so the entry sequence describes
    /// its map without ambiguity.
    pub closed spec fn wf(&self) -> bool {
        forall|i: int, j: int|
            0 <= i < j < self.entries@.len() ==> self.entries@[i].0@ != self.entries@[j].0@
    }

    pub closed spec fn ttl_spec(&self) -> u64 {
        self.ttl
    }

    pub closed spec fn entries_seq(&self) -> Seq<(K, CacheItem<T>)> {
        self.entries@
    }
}

impl<K: View, T> View for Cache<K, T> {
    type V = Map<K::V, CacheItem<T>>;

    closed spec fn view(&self) -> Map<K::V, CacheItem<T>> {
        map_of(self.entries@)
    }
}

/// A key absent from every entry is absent from the described map.
proof fn lemma_map_of_absent<K: View, T>(s: Seq<(K, CacheItem<T>)>, k: K::V)
    requires
        forall|i: int| 0 <= i < s.len() ==> s[i].0@ != k,
    ensures
        !map_of(s).contains_key(k),
    decreases s.len(),
{
    if s.len() > 0 {
        lemma_map_of_absent(s.drop_last(), k);
    }
}

/// With distinct keys, the described map holds each entry's value at its key.
proof fn lemma_map_of_at<K: View, T>(s: Seq<(K, CacheItem<T>)>, i: int)
    requires
        forall|p: int, q: int| 0 <= p < q < s.len() ==> s[p].0@ != s[q].0@,
        0 <= i < s.len(),
    ensures
        map_of(s).contains_key(s[i].0@),
        map_of(s)[s[i].0@] == s[i].1,
    decreases s.len(),
{
    if i < s.len() - 1 {
        lemma_map_of_at(s.drop_last(), i);
    }
}

/// With distinct keys, dropping the entry at `i` removes exactly its key
/// from the described map.
proof fn lemma_map_of_remove<K: View, T>(s: Seq<(K, CacheItem<T>)>, i: int)
    requires
        forall|p: int, q: int| 0 <= p < q < s.len() ==> s[p].0@ != s[q].0@,
        0 <= i < s.len(),
    ensures
        map_of(s.remove(i)) == map_of(s).remove(s[i].0@),
    decreases s.len(),
{
    if i == s.len() - 1 {
        assert(s.remove(i) =~= s.drop_last());
        assert(forall|p: int| 0 <= p < s.drop_last().len() ==> s.drop_last()[p].0@ != s[i].0@);
        lemma_map_of_absent(s.drop_last(), s[i].0@);
        assert(map_of(s.drop_last()) =~= map_of(s.drop_last()).insert(s.last().0@, s.last().1)
            .remove(s.last().0@));
    } else {
        lemma_map_of_remove(s.drop_last(), i);
        assert(s.remove(i).drop_last() =~= s.drop_last().remove(i));
        assert(s.remove(i).last() == s.last());
        assert(map_of(s.remove(i)) == map_of(s.drop_last().remove(i)).insert(
            s.last().0@,
            s.last().1,
        ));
        assert(map_of(s.drop_last()).remove(s[i].0@).insert(s.last().0@, s.last().1)
            =~= map_of(s.drop_last()).insert(s.last().0@, s.last().1).remove(s[i].0@));
    }
}

impl<K: CacheKey, T> Cache<K, T> {
    /// An empty cache with the given time-to-live.
    pub fn new(ttl: u64) -> (c: Cache<K, T>)
        ensures
            c.wf(),
            c@ == Map::<K::V, CacheItem<T>>::empty(),
            c.ttl_spec() == ttl,
    {
        let c = Cache { entries: Vec::new(), ttl };
        proof {
            assert(c.entries@.len() == 0);
        }
        c
    }
}

/// Answers the value cached under `key` unless the entry has outlived the
/// time-to-live; a stale or missing entry answers `None`.  The stale entry,
/// if any, is left in place.
pub fn cache_get<'a, K: CacheKey, T>(cache: &'a Cache<K, T>, key: &K, now: u64) -> (r: Option<
    &'a T,
>)
    requires
        cache.wf(),
    ensures
        (match r {
            Some(v) => lookup(cache@, cache.ttl_spec(), key@, now) == Some(*v),
            None => lookup(cache@, cache.ttl_spec(), key@, now) is None,
        }),
{
    let ghost s = cache.entries_seq();
    let n = cache.entries.len();
    let mut i: usize = 0;
    while i < n
        invariant
            cache.wf(),
            s == cache.entries_seq(),
            n == s.len(),
            0 <= i <= n,
            forall|j: int| 0 <= j < i ==> s[j].0@ != key@,
        decreases n - i,
    {
        if cache.entries[i].0.key_eq(key) {
            proof {
                lemma_map_of_at(s, i as int);
            }
            let item = &cache.entries[i].1;
            if now < item.time || now - item.time < cache.ttl {
                return Some(&item.value);
            } else {
                return None;
            }
        }
        i += 1;
    }
    proof {
        lemma_map_of_absent(s, key@);
    }
    None
}

/// Writes `value` under `key`, stamped with the current time, overwriting
/// any earlier entry for the key.
pub fn cache_put<K: CacheKey, T>(cache: &mut Cache<K, T>, key: K, value: T, now: u64)
    requires
        old(cache).wf(),
    ensures
        final(cache).wf(),
        final(cache)@ == old(cache)@.insert(key@, (CacheItem { time: now, value })),
        final(cache).ttl_spec() == old(cache).ttl_spec(),
{
    let ghost s = old(cache).entries_seq();
    let n = cache.entries.len();
    let mut i: usize = 0;
    while i < n
        invariant
            *cache == *old(cache),
            cache.wf(),
            s == cache.entries_seq(),
            n == s.len(),
            0 <= i <= n,
            forall|j: int| 0 <= j < i ==> s[j].0@ != key@,
        decreases n - i,
    {
        if cache.entries[i].0.key_eq(&key) {
            proof {
                lemma_map_of_at(s, i as int);
                lemma_map_of_remove(s, i as int);
            }
            let ghost old_key_view = s[i as int].0@;
            self_update(cache, i, key, value, now);
            proof {
                let t = cache.entries_seq();
                assert(t =~= s.remove(i as int).push(
                    (
                        t.last().0,
                        CacheItem { time: now, value: t.last().1.value },
                    ),
                ));
                assert(t.drop_last() =~= s.remove(i as int));
                assert(map_of(t) == map_of(s.remove(i as int)).insert(t.last().0@, t.last().1));
                assert(t.last().0@ == old_key_view);
                assert(map_of(t) =~= map_of(s).insert(
                    t.last().0@,
                    (CacheItem { time: now, value: t.last().1.value }),
                ));
            }
            return ;
        }
        i += 1;
    }
    let ghost kv = key@;
    cache.entries.push((key, CacheItem { time: now, value }));
    proof {
        let t = cache.entries_seq();
        assert(t.drop_last() =~= s);
        assert(map_of(t) == map_of(s).insert(t.last().0@, t.last().1));
        assert forall|p: int, q: int| 0 <= p < q < t.len() implies t[p].0@ != t[q].0@ by {
            if q == t.len() - 1 {
                assert(t[p].0@ != kv);
            }
        }
    }
}

/// Replaces the entry at `i` with a freshly stamped one for the same key.
fn self_update<K: CacheKey, T>(cache: &mut Cache<K, T>, i: usize, key: K, value: T, now: u64)
    requires
        i < old(cache).entries_seq().len(),
        old(cache).entries_seq()[i as int].0@ == key@,
    ensures
        final(cache).entries_seq() == old(cache).entries_seq().remove(i as int).push(
            (key, (CacheItem { time: now, value })),
        ),
        final(cache).ttl_spec() == old(cache).ttl_spec(),
{
    let _ = cache.entries.remove(i);
    cache.entries.push((key, CacheItem { time: now, value }));
}

/// A value written at time `t` answers every read before `t + ttl` and no
/// read at or after it, whatever the cache held before.
pub proof fn lemma_get_after_put<KV, T>(
    m: Map<KV, CacheItem<T>>,
    ttl: u64,
    key: KV,
    value: T,
    t: u64,
    t_read: u64,
)
    ensures
        (t_read as int) < t + ttl ==> lookup(
            m.insert(key, (CacheItem { time: t, value })),
            ttl,
            key,
            t_read,
        ) == Some(value),
        (t_read as int) >= t + ttl ==> lookup(
            m.insert(key, (CacheItem { time: t, value })),
            ttl,
            key,
            t_read,
        ) is None,
{
}

/// Writing any other key leaves what a read of `key` answers unchanged.
pub proof fn lemma_put_other_key_preserves_get<KV, T>(
    m: Map<KV, CacheItem<T>>,
    ttl: u64,
    key: KV,
    other: KV,
    item: CacheItem<T>,
    t_read: u64,
)
    requires
        other != key,
    ensures
        lookup(m.insert(other, item), ttl, key, t_read) == lookup(m, ttl, key, t_read),
{
}

/// The cache contents after a sequence of further writes, in order.
pub open spec fn after_writes<KV, T>(
    m: Map<KV, CacheItem<T>>,
    writes: Seq<(KV, CacheItem<T>)>,
) -> Map<KV, CacheItem<T>>
    decreases writes.len(),
{
    if writes.len() == 0 {
        m
    } else {
        after_writes(m, writes.drop_last()).insert(writes.last().0, writes.last().1)
    }
}

/// A value written under `key` at time `t` answers every read of `key`
/// before `t + ttl` and no read at or after it, however many writes to
/// other keys happen in between.
pub proof fn lemma_get_after_put_and_other_writes<KV, T>(
    m: Map<KV, CacheItem<T>>,
    ttl: u64,
    key: KV,
    value: T,
    t: u64,
    writes: Seq<(KV, CacheItem<T>)>,
    t_read: u64,
)
    requires
        forall|i: int| 0 <= i < writes.len() ==> writes[i].0 != key,
    ensures
        (t_read as int) < t + ttl ==> lookup(
            after_writes(m.insert(key, (CacheItem { time: t, value })), writes),
            ttl,
            key,
            t_read,
        ) == Some(value),
        (t_read as int) >= t + ttl ==> lookup(
            after_writes(m.insert(key, (CacheItem { time: t, value })), writes),
            ttl,
            key,
            t_read,
        ) is None,
    decreases writes.len(),
{
    if writes.len() > 0 {
        lemma_get_after_put_and_other_writes(
            m,
            ttl,
            key,
            value,
            t,
            writes.drop_last(),
            t_read,
        );
    }
}

} // verus!
