use marvin_toggl::cache::{Cache, cache_get, cache_put};
use marvin_toggl::hierarchy::{
    MappedNames, ResolveError, WalkProbe, is_sentinel, map_hierarchy, str_eq, walk_fetched,
    walk_probe,
};

fn names(m: &MappedNames) -> (Option<&str>, Option<&str>, Option<&str>, &str) {
    (
        m.client.as_deref(),
        m.project.as_deref(),
        m.task.as_deref(),
        m.description.as_str(),
    )
}

fn anc(titles: &[&str]) -> Vec<String> {
    titles.iter().map(|t| t.to_string()).collect()
}

#[test]
fn mapping_with_no_ancestors() {
    let m = map_hierarchy(&anc(&[]), "Do X");
    assert_eq!(names(&m), (None, None, None, "Do X"));
}

#[test]
fn mapping_with_one_ancestor() {
    let m = map_hierarchy(&anc(&["Solo"]), "Do X");
    assert_eq!(names(&m), (Some("Solo"), Some("Solo"), None, "Do X"));
}

#[test]
fn mapping_with_two_ancestors() {
    let m = map_hierarchy(&anc(&["ProjA", "ClientB"]), "Do X");
    assert_eq!(names(&m), (Some("ClientB"), Some("ProjA"), None, "Do X"));
}

#[test]
fn mapping_with_three_ancestors() {
    let m = map_hierarchy(&anc(&["Near", "Mid", "Far"]), "Do X");
    assert_eq!(names(&m), (Some("Far"), Some("Mid"), Some("Near"), "Do X"));
}

#[test]
fn mapping_with_four_ancestors() {
    let m = map_hierarchy(&anc(&["a0", "a1", "a2", "a3"]), "leaf");
    assert_eq!(names(&m), (Some("a3"), Some("a2"), Some("a0"), "leaf"));
}

#[test]
fn mapping_with_five_ancestors() {
    let m = map_hierarchy(&anc(&["a0", "a1", "a2", "a3", "a4"]), "leaf");
    assert_eq!(names(&m), (Some("a4"), Some("a3"), Some("a0"), "leaf"));
}

#[test]
fn mapping_trims_selected_names() {
    let m = map_hierarchy(&anc(&["  ProjA ", " ClientB  "]), "  Do X ");
    assert_eq!(names(&m), (Some("ClientB"), Some("ProjA"), None, "Do X"));
}

#[test]
fn sentinels_are_recognized() {
    assert!(is_sentinel("root"));
    assert!(is_sentinel("unassigned"));
    assert!(!is_sentinel("Root"));
    assert!(!is_sentinel("doc42"));
    assert!(!is_sentinel(""));
}

#[test]
fn str_eq_compares_exactly() {
    assert!(str_eq("abc", "abc"));
    assert!(!str_eq("abc", "abd"));
    assert!(!str_eq("abc", "abcd"));
}

#[test]
fn walk_probe_stops_on_sentinels() {
    let mut cache: Cache<String, (String, String)> = Cache::new(300_000);
    assert!(matches!(walk_probe(&mut cache, &"root".to_string(), 0), WalkProbe::Done));
    assert!(matches!(walk_probe(&mut cache, &"unassigned".to_string(), 0), WalkProbe::Done));
}

#[test]
fn walk_probe_misses_then_hits_after_fetch() {
    let mut cache: Cache<String, (String, String)> = Cache::new(300_000);
    let parent = "doc42".to_string();
    assert!(matches!(walk_probe(&mut cache, &parent, 0), WalkProbe::Fetch));

    let step = walk_fetched(
        &mut cache,
        &parent,
        Some("6:10 pm Week 1".to_string()),
        Some("doc41".to_string()),
        0,
    );
    assert_eq!(step, Ok(("Week 1".to_string(), "doc41".to_string())));

    match walk_probe(&mut cache, &parent, 100) {
        WalkProbe::Cached { title, next } => {
            assert_eq!(title, "Week 1");
            assert_eq!(next, "doc41");
        }
        other => panic!("expected a cache hit, got {:?}", describe(&other)),
    }
    // The raw pair, not the normalized title, is what the cache holds.
    assert_eq!(
        cache_get(&cache, &parent, 100).cloned(),
        Some(("6:10 pm Week 1".to_string(), "doc41".to_string()))
    );
}

#[test]
fn walk_probe_treats_expired_entry_as_miss() {
    let mut cache: Cache<String, (String, String)> = Cache::new(300_000);
    let parent = "doc42".to_string();
    cache_put(&mut cache, parent.clone(), ("T".to_string(), "root".to_string()), 0);
    assert!(matches!(walk_probe(&mut cache, &parent, 300_000), WalkProbe::Fetch));
}

#[test]
fn walk_fetched_rejects_malformed_documents() {
    let mut cache: Cache<String, (String, String)> = Cache::new(300_000);
    let parent = "doc42".to_string();
    assert_eq!(
        walk_fetched(&mut cache, &parent, None, Some("doc41".to_string()), 0),
        Err(ResolveError::Unavailable)
    );
    assert_eq!(
        walk_fetched(&mut cache, &parent, Some("Title".to_string()), None, 0),
        Err(ResolveError::Unavailable)
    );
    assert_eq!(walk_fetched(&mut cache, &parent, None, None, 0), Err(ResolveError::Unavailable));
    // A failed fetch caches nothing.
    assert!(matches!(walk_probe(&mut cache, &parent, 0), WalkProbe::Fetch));
}

fn describe(p: &WalkProbe) -> &'static str {
    match p {
        WalkProbe::Done => "Done",
        WalkProbe::Cached { .. } => "Cached",
        WalkProbe::Fetch => "Fetch",
    }
}
