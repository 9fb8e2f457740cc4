//! Resolution of target-system entities by name.
//!
//! Each resolution step first consults its cache by composite key.  On a
//! miss the caller lists all entities of that kind from the target system
//! and the scan functions here pick the match while opportunistically
//! caching every listed entity under its own key.  If nothing matched and
//! creation is permitted, the caller creates the entity and records it.
//! Listing order matters only when the remote reports two entities under
//! one name: the one listed last wins, matching what the cache retains.

use crate::cache::{Cache, CacheItem, ScopeKey, cache_put, lookup};
use vstd::prelude::*;

verus! {

/// An entity of the target system that is looked up by bare name: a client
/// or a tag.
pub struct EntityRecord {
    pub id: i64,
    pub name: String,
}

/// A project of the target system; a project belongs to a client, and only
/// projects with a known client take part in resolution.
pub struct ProjectRecord {
    pub id: i64,
    pub name: String,
    pub client_id: Option<i64>,
}

/// A label of the source system: an identifier and a display title.
pub struct LabelRecord {
    pub id: String,
    pub title: String,
}

/// The identifier of the last listed entity bearing `name`, if any.
pub open spec fn last_id_by_name(s: Seq<EntityRecord>, name: Seq<char>) -> Option<i64>
    decreases s.len(),
{
    if s.len() == 0 {
        None
    } else if s.last().name@ == name {
        Some(s.last().id)
    } else {
        last_id_by_name(s.drop_last(), name)
    }
}

/// The cache contents after every listed entity has been written at `now`,
/// in listing order.
pub open spec fn cache_after_entities(
    m: Map<Seq<char>, CacheItem<i64>>,
    s: Seq<EntityRecord>,
    now: u64,
) -> Map<Seq<char>, CacheItem<i64>>
    decreases s.len(),
{
    if s.len() == 0 {
        m
    } else {
        cache_after_entities(m, s.drop_last(), now).insert(
            s.last().name@,
            (CacheItem { time: now, value: s.last().id }),
        )
    }
}

/// Scans a freshly listed set of named entities for `name`, caching every
/// one of them under its own name; answers the identifier of the last
/// match, or `None` when the name is absent and the caller may create.
/// Serves both the client and the tag namespace.
pub fn scan_named_entities(
    cache: &mut Cache<String, i64>,
    listed: &Vec<EntityRecord>,
    name: &String,
    now: u64,
) -> (r: Option<i64>)
    requires
        old(cache).wf(),
    ensures
        final(cache).wf(),
        final(cache).ttl_spec() == old(cache).ttl_spec(),
        final(cache)@ == cache_after_entities(old(cache)@, listed@, now),
        r == last_id_by_name(listed@, name@),
{
    let n = listed.len();
    let mut found: Option<i64> = None;
    let mut i: usize = 0;
    while i < n
        invariant
            cache.wf(),
            cache.ttl_spec() == old(cache).ttl_spec(),
            n == listed@.len(),
            0 <= i <= n,
            cache@ == cache_after_entities(old(cache)@, listed@.take(i as int), now),
            found == last_id_by_name(listed@.take(i as int), name@),
        decreases n - i,
    {
        let entry = &listed[i];
        if entry.name == *name {
            found = Some(entry.id);
        }
        cache_put(cache, entry.name.clone(), entry.id, now);
        proof {
            assert(listed@.take(i + 1).drop_last() =~= listed@.take(i as int));
            assert(listed@.take(i + 1).last() == listed@[i as int]);
        }
        i += 1;
    }
    proof {
        assert(listed@.take(n as int) =~= listed@);
    }
    found
}

/// The identifier of the last listed project bearing `name` under client
/// `client`, if any.
pub open spec fn last_project_match(s: Seq<ProjectRecord>, client: i64, name: Seq<char>) -> Option<
    i64,
>
    decreases s.len(),
{
    if s.len() == 0 {
        None
    } else if s.last().name@ == name && s.last().client_id == Some(client) {
        Some(s.last().id)
    } else {
        last_project_match(s.drop_last(), client, name)
    }
}

/// The project cache contents after every listed project with a known
/// client has been written at `now` under its (client, name) key.
pub open spec fn cache_after_projects(
    m: Map<(int, Seq<char>), CacheItem<i64>>,
    s: Seq<ProjectRecord>,
    now: u64,
) -> Map<(int, Seq<char>), CacheItem<i64>>
    decreases s.len(),
{
    if s.len() == 0 {
        m
    } else {
        let rest = cache_after_projects(m, s.drop_last(), now);
        match s.last().client_id {
            Some(cid) => rest.insert(
                (cid as int, s.last().name@),
                (CacheItem { time: now, value: s.last().id }),
            ),
            None => rest,
        }
    }
}

/// Scans a freshly listed set of projects for one named `name` under
/// client `client`, caching every listed project that has a client under
/// its (client, name) key; answers the identifier of the last match.
pub fn scan_projects(
    cache: &mut Cache<ScopeKey, i64>,
    listed: &Vec<ProjectRecord>,
    client: i64,
    name: &String,
    now: u64,
) -> (r: Option<i64>)
    requires
        old(cache).wf(),
    ensures
        final(cache).wf(),
        final(cache).ttl_spec() == old(cache).ttl_spec(),
        final(cache)@ == cache_after_projects(old(cache)@, listed@, now),
        r == last_project_match(listed@, client, name@),
{
    let n = listed.len();
    let mut found: Option<i64> = None;
    let mut i: usize = 0;
    while i < n
        invariant
            cache.wf(),
            cache.ttl_spec() == old(cache).ttl_spec(),
            n == listed@.len(),
            0 <= i <= n,
            cache@ == cache_after_projects(old(cache)@, listed@.take(i as int), now),
            found == last_project_match(listed@.take(i as int), client, name@),
        decreases n - i,
    {
        let entry = &listed[i];
        match entry.client_id {
            Some(cid) => {
                if entry.name == *name && cid == client {
                    found = Some(entry.id);
                }
                let key = ScopeKey { scope: cid, name: entry.name.clone() };
                cache_put(cache, key, entry.id, now);
            },
            None => {
                // A project without a client is neither cached nor a
                // match: matching asks for an exact client as well as an
                // exact name.
            },
        }
        proof {
            assert(listed@.take(i + 1).drop_last() =~= listed@.take(i as int));
            assert(listed@.take(i + 1).last() == listed@[i as int]);
        }
        i += 1;
    }
    proof {
        assert(listed@.take(n as int) =~= listed@);
    }
    found
}

/// The task cache contents after every listed task of project `project`
/// has been written at `now` under its (project, name) key.
pub open spec fn cache_after_tasks(
    m: Map<(int, Seq<char>), CacheItem<i64>>,
    s: Seq<EntityRecord>,
    project: i64,
    now: u64,
) -> Map<(int, Seq<char>), CacheItem<i64>>
    decreases s.len(),
{
    if s.len() == 0 {
        m
    } else {
        cache_after_tasks(m, s.drop_last(), project, now).insert(
            (project as int, s.last().name@),
            (CacheItem { time: now, value: s.last().id }),
        )
    }
}

/// Scans the freshly listed tasks of project `project` for one named
/// `name`, caching each under its (project, name) key; answers the
/// identifier of the last match.
pub fn scan_tasks(
    cache: &mut Cache<ScopeKey, i64>,
    listed: &Vec<EntityRecord>,
    project: i64,
    name: &String,
    now: u64,
) -> (r: Option<i64>)
    requires
        old(cache).wf(),
    ensures
        final(cache).wf(),
        final(cache).ttl_spec() == old(cache).ttl_spec(),
        final(cache)@ == cache_after_tasks(old(cache)@, listed@, project, now),
        r == last_id_by_name(listed@, name@),
{
    let n = listed.len();
    let mut found: Option<i64> = None;
    let mut i: usize = 0;
    while i < n
        invariant
            cache.wf(),
            cache.ttl_spec() == old(cache).ttl_spec(),
            n == listed@.len(),
            0 <= i <= n,
            cache@ == cache_after_tasks(old(cache)@, listed@.take(i as int), project, now),
            found == last_id_by_name(listed@.take(i as int), name@),
        decreases n - i,
    {
        let entry = &listed[i];
        if entry.name == *name {
            found = Some(entry.id);
        }
        let key = ScopeKey { scope: project, name: entry.name.clone() };
        cache_put(cache, key, entry.id, now);
        proof {
            assert(listed@.take(i + 1).drop_last() =~= listed@.take(i as int));
            assert(listed@.take(i + 1).last() == listed@[i as int]);
        }
        i += 1;
    }
    proof {
        assert(listed@.take(n as int) =~= listed@);
    }
    found
}

/// The title of the last listed label bearing `id`, or the empty title
/// when the identifier is unknown.
pub open spec fn title_for_label(s: Seq<LabelRecord>, id: Seq<char>) -> Seq<char>
    decreases s.len(),
{
    if s.len() == 0 {
        Seq::empty()
    } else if s.last().id@ == id {
        s.last().title@
    } else {
        title_for_label(s.drop_last(), id)
    }
}

/// The label cache contents after every listed label has been written at
/// `now` under its identifier.
pub open spec fn cache_after_labels(
    m: Map<Seq<char>, CacheItem<String>>,
    s: Seq<LabelRecord>,
    now: u64,
) -> Map<Seq<char>, CacheItem<String>>
    decreases s.len(),
{
    if s.len() == 0 {
        m
    } else {
        cache_after_labels(m, s.drop_last(), now).insert(
            s.last().id@,
            (CacheItem { time: now, value: s.last().title }),
        )
    }
}

/// Scans a freshly listed set of source-system labels for the identifier
/// `id`, caching every listed label's title under its identifier; answers
/// the matching title, or the empty string when the identifier is unknown.
pub fn scan_labels(
    cache: &mut Cache<String, String>,
    listed: &Vec<LabelRecord>,
    id: &String,
    now: u64,
) -> (r: String)
    requires
        old(cache).wf(),
    ensures
        final(cache).wf(),
        final(cache).ttl_spec() == old(cache).ttl_spec(),
        final(cache)@ == cache_after_labels(old(cache)@, listed@, now),
        r@ == title_for_label(listed@, id@),
{
    let n = listed.len();
    let mut found = String::new();
    let mut i: usize = 0;
    while i < n
        invariant
            cache.wf(),
            cache.ttl_spec() == old(cache).ttl_spec(),
            n == listed@.len(),
            0 <= i <= n,
            cache@ == cache_after_labels(old(cache)@, listed@.take(i as int), now),
            found@ == title_for_label(listed@.take(i as int), id@),
        decreases n - i,
    {
        let entry = &listed[i];
        if entry.id == *id {
            found = entry.title.clone();
        }
        cache_put(cache, entry.id.clone(), entry.title.clone(), now);
        proof {
            assert(listed@.take(i + 1).drop_last() =~= listed@.take(i as int));
            assert(listed@.take(i + 1).last() == listed@[i as int]);
        }
        i += 1;
    }
    proof {
        assert(listed@.take(n as int) =~= listed@);
    }
    found
}

/// A scan that found an entity leaves its identifier in the cache under
/// the name it was sought by, stamped with the scan time.
pub proof fn lemma_scan_caches_match(
    m: Map<Seq<char>, CacheItem<i64>>,
    s: Seq<EntityRecord>,
    name: Seq<char>,
    id: i64,
    now: u64,
)
    requires
        last_id_by_name(s, name) == Some(id),
    ensures
        cache_after_entities(m, s, now).contains_key(name),
        cache_after_entities(m, s, now)[name] == (CacheItem { time: now, value: id }),
    decreases s.len(),
{
    if s.len() > 0 && s.last().name@ != name {
        lemma_scan_caches_match(m, s.drop_last(), name, id, now);
    }
}

/// A project scan that found a match leaves its identifier in the cache
/// under the (client, name) key it was sought by.
pub proof fn lemma_project_scan_caches_match(
    m: Map<(int, Seq<char>), CacheItem<i64>>,
    s: Seq<ProjectRecord>,
    client: i64,
    name: Seq<char>,
    id: i64,
    now: u64,
)
    requires
        last_project_match(s, client, name) == Some(id),
    ensures
        cache_after_projects(m, s, now).contains_key((client as int, name)),
        cache_after_projects(m, s, now)[(client as int, name)] == (CacheItem {
            time: now,
            value: id,
        }),
    decreases s.len(),
{
    if s.len() > 0 && !(s.last().name@ == name && s.last().client_id == Some(client)) {
        lemma_project_scan_caches_match(m, s.drop_last(), client, name, id, now);
    }
}

/// Resolving the same name twice never creates a second entity: once a
/// resolution has cached the identifier it obtained (by scan or by
/// creation) at time `t`, a later resolution of the same key that starts
/// with a cache probe before the entry expires finds that identifier and
/// short-circuits before any create call.
pub proof fn lemma_second_resolution_short_circuits<KV>(
    m: Map<KV, CacheItem<i64>>,
    ttl: u64,
    key: KV,
    id: i64,
    t: u64,
    t_probe: u64,
)
    requires
        (t_probe as int) < t + ttl,
    ensures
        lookup(m.insert(key, (CacheItem { time: t, value: id })), ttl, key, t_probe) == Some(id),
{
}

} // verus!
