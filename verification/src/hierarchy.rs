//! Hierarchy walking and the positional mapping of ancestor titles.
//!
//! A leaf task's ancestor chain is walked upward one parent reference at a
//! time until a sentinel ("root" or "unassigned") is reached.  Each step
//! first consults the project cache; on a miss the caller fetches the
//! remote document and hands its fields back, which are cached and
//! normalized here.  The collected titles, immediate parent first, are then
//! mapped positionally onto the target system's client / project / task /
//! description tuple.

use crate::cache::{Cache, CacheItem, cache_get, cache_put, lookup};
use crate::normalize::{norm_spec, normalize, trim, trim_spec};
use vstd::prelude::*;

verus! {

/// A required remote step failed or returned malformed data; the whole
/// resolution is aborted and reported as retryable.
#[derive(Debug, PartialEq, Eq, Structural)]
pub enum ResolveError {
    Unavailable,
}

/// Compares two string slices by their characters.
pub fn str_eq(a: &str, b: &str) -> (r: bool)
    ensures
        r == (a@ == b@),
{
    let sa = a.to_owned();
    let sb = b.to_owned();
    sa == sb
}

/// Whether a parent reference is one of the two reserved identifiers that
/// mark the top of the hierarchy.
pub open spec fn is_sentinel_spec(id: Seq<char>) -> bool {
    id == "root"@ || id == "unassigned"@
}

pub fn is_sentinel(id: &str) -> (b: bool)
    ensures
        b == is_sentinel_spec(id@),
{
    str_eq(id, "root") || str_eq(id, "unassigned")
}

/// What one walk step finds before any remote call is made.
pub enum WalkProbe {
    /// The parent reference is a sentinel: the chain is complete.
    Done,
    /// The cache answered: the normalized title to append and the next
    /// parent reference to follow.
    Cached { title: String, next: String },
    /// The cache missed: the caller must fetch the document for this
    /// parent reference.
    Fetch,
}

/// Decides one walk step from the cache alone: a sentinel ends the walk, a
/// fresh cache entry advances it, and a miss asks the caller to fetch.  A
/// hit re-writes the pair under its key, freshly stamped, before the walk
/// advances.
pub fn walk_probe(
    cache: &mut Cache<String, (String, String)>,
    parent_id: &String,
    now: u64,
) -> (r: WalkProbe)
    requires
        old(cache).wf(),
    ensures
        final(cache).wf(),
        final(cache).ttl_spec() == old(cache).ttl_spec(),
        ({
            let l = lookup(old(cache)@, old(cache).ttl_spec(), parent_id@, now);
            if is_sentinel_spec(parent_id@) {
                r is Done && final(cache)@ == old(cache)@
            } else {
                match l {
                    Some(p) => r matches WalkProbe::Cached { title, next } && title@ == norm_spec(
                        p.0@,
                    ) && next@ == p.1@ && final(cache)@ == old(cache)@.insert(
                        parent_id@,
                        (CacheItem { time: now, value: p }),
                    ),
                    None => r is Fetch && final(cache)@ == old(cache)@,
                }
            }
        }),
{
    if is_sentinel(parent_id.as_str()) {
        return WalkProbe::Done;
    }
    let cached = match cache_get(cache, parent_id, now) {
        Some(pair) => Some((pair.0.clone(), pair.1.clone())),
        None => None,
    };
    match cached {
        Some(pair) => {
            let title = normalize(pair.0.as_str());
            let next = pair.1.clone();
            cache_put(cache, parent_id.clone(), pair, now);
            WalkProbe::Cached { title, next }
        },
        None => WalkProbe::Fetch,
    }
}

/// Takes in the fields of a freshly fetched document: a missing title or
/// parent reference is a fatal resolution error; otherwise the raw pair is
/// cached under the original key and the normalized title is handed back
/// together with the next parent reference.
pub fn walk_fetched(
    cache: &mut Cache<String, (String, String)>,
    parent_id: &String,
    title: Option<String>,
    next_parent: Option<String>,
    now: u64,
) -> (r: Result<(String, String), ResolveError>)
    requires
        old(cache).wf(),
    ensures
        final(cache).wf(),
        final(cache).ttl_spec() == old(cache).ttl_spec(),
        (match (title, next_parent) {
            (Some(t), Some(p)) => r matches Ok(pair) && pair.0@ == norm_spec(t@) && pair.1@ == p@
                && final(cache)@ == old(cache)@.insert(
                parent_id@,
                (CacheItem { time: now, value: (t, p) }),
            ),
            _ => r is Err && final(cache)@ == old(cache)@,
        }),
{
    match (title, next_parent) {
        (Some(t), Some(p)) => {
            let norm_title = normalize(t.as_str());
            let next = p.clone();
            cache_put(cache, parent_id.clone(), (t, p), now);
            Ok((norm_title, next))
        },
        _ => Err(ResolveError::Unavailable),
    }
}

/// The names a task resolves to in the target system, selected positionally
/// from its ancestor titles.
pub struct MappedNames {
    pub client: Option<String>,
    pub project: Option<String>,
    pub task: Option<String>,
    pub description: String,
}

/// Maps the ancestor-title list (immediate parent first) and the leaf's own
/// title onto target names:
///
/// * no ancestors: only a description;
/// * one ancestor: it names both client and project;
/// * two ancestors: the farther names the client, the nearer the project;
/// * three or more: the two farthest name client and project and the
///   immediate parent names the task.
///
/// Every selected name is trimmed of surrounding whitespace; the leaf title
/// always becomes the description.
pub fn map_hierarchy(ancestors: &Vec<String>, leaf: &str) -> (m: MappedNames)
    ensures
        m.description@ == trim_spec(leaf@),
        ancestors@.len() == 0 ==> m.client is None && m.project is None && m.task is None,
        ancestors@.len() == 1 ==> (m.client matches Some(c) && c@ == trim_spec(ancestors@[0]@)) && (
        m.project matches Some(p) && p@ == trim_spec(ancestors@[0]@)) && m.task is None,
        ancestors@.len() == 2 ==> (m.client matches Some(c) && c@ == trim_spec(ancestors@[1]@)) && (
        m.project matches Some(p) && p@ == trim_spec(ancestors@[0]@)) && m.task is None,
        ancestors@.len() >= 3 ==> (m.client matches Some(c) && c@ == trim_spec(
            ancestors@[ancestors@.len() - 1]@,
        )) && (m.project matches Some(p) && p@ == trim_spec(ancestors@[ancestors@.len() - 2]@)) && (
        m.task matches Some(t) && t@ == trim_spec(ancestors@[0]@)),
{
    let n = ancestors.len();
    let description = trim(leaf);
    if n == 0 {
        MappedNames { client: None, project: None, task: None, description }
    } else if n == 1 {
        MappedNames {
            client: Some(trim(ancestors[0].as_str())),
            project: Some(trim(ancestors[0].as_str())),
            task: None,
            description,
        }
    } else if n == 2 {
        MappedNames {
            client: Some(trim(ancestors[1].as_str())),
            project: Some(trim(ancestors[0].as_str())),
            task: None,
            description,
        }
    } else {
        MappedNames {
            client: Some(trim(ancestors[n - 1].as_str())),
            project: Some(trim(ancestors[n - 2].as_str())),
            task: Some(trim(ancestors[0].as_str())),
            description,
        }
    }
}

} // verus!
