use marvin_toggl::cache::{Cache, ScopeKey, cache_get, cache_put};
use marvin_toggl::resolve::{
    EntityRecord, LabelRecord, ProjectRecord, scan_labels, scan_named_entities, scan_projects,
    scan_tasks,
};

const TTL: u64 = 300_000;

fn entity(id: i64, name: &str) -> EntityRecord {
    EntityRecord { id, name: name.to_string() }
}

fn project(id: i64, name: &str, client_id: Option<i64>) -> ProjectRecord {
    ProjectRecord { id, name: name.to_string(), client_id }
}

fn label(id: &str, title: &str) -> LabelRecord {
    LabelRecord { id: id.to_string(), title: title.to_string() }
}

#[test]
fn scan_finds_entity_by_exact_name() {
    let mut cache: Cache<String, i64> = Cache::new(TTL);
    let listed = vec![entity(1, "Acme"), entity(2, "Globex"), entity(3, "Initech")];
    assert_eq!(scan_named_entities(&mut cache, &listed, &"Globex".to_string(), 0), Some(2));
    assert_eq!(scan_named_entities(&mut cache, &listed, &"globex".to_string(), 0), None);
    assert_eq!(scan_named_entities(&mut cache, &listed, &"Missing".to_string(), 0), None);
}

#[test]
fn scan_caches_every_listed_entity() {
    let mut cache: Cache<String, i64> = Cache::new(TTL);
    let listed = vec![entity(1, "Acme"), entity(2, "Globex")];
    scan_named_entities(&mut cache, &listed, &"Acme".to_string(), 10);
    assert_eq!(cache_get(&cache, &"Acme".to_string(), 20), Some(&1));
    assert_eq!(cache_get(&cache, &"Globex".to_string(), 20), Some(&2));
}

#[test]
fn scan_last_duplicate_wins() {
    let mut cache: Cache<String, i64> = Cache::new(TTL);
    let listed = vec![entity(1, "Acme"), entity(2, "Acme")];
    assert_eq!(scan_named_entities(&mut cache, &listed, &"Acme".to_string(), 0), Some(2));
    assert_eq!(cache_get(&cache, &"Acme".to_string(), 1), Some(&2));
}

#[test]
fn project_scan_requires_matching_client() {
    let mut cache: Cache<ScopeKey, i64> = Cache::new(TTL);
    let listed = vec![
        project(10, "Website", Some(1)),
        project(11, "Website", Some(2)),
        project(12, "Orphan", None),
    ];
    assert_eq!(scan_projects(&mut cache, &listed, 2, &"Website".to_string(), 0), Some(11));
    assert_eq!(scan_projects(&mut cache, &listed, 3, &"Website".to_string(), 0), None);
    // A project with no client never matches, even by name.
    assert_eq!(scan_projects(&mut cache, &listed, 3, &"Orphan".to_string(), 0), None);
}

#[test]
fn project_scan_caches_under_client_scoped_keys() {
    let mut cache: Cache<ScopeKey, i64> = Cache::new(TTL);
    let listed = vec![
        project(10, "Website", Some(1)),
        project(11, "Website", Some(2)),
        project(12, "Orphan", None),
    ];
    scan_projects(&mut cache, &listed, 1, &"Website".to_string(), 0);
    assert_eq!(cache_get(&cache, &ScopeKey { scope: 1, name: "Website".to_string() }, 1), Some(&10));
    assert_eq!(cache_get(&cache, &ScopeKey { scope: 2, name: "Website".to_string() }, 1), Some(&11));
    // The clientless project was not cached.
    assert_eq!(cache_get(&cache, &ScopeKey { scope: 0, name: "Orphan".to_string() }, 1), None);
}

#[test]
fn task_scan_matches_and_caches_by_project() {
    let mut cache: Cache<ScopeKey, i64> = Cache::new(TTL);
    let listed = vec![entity(100, "Design"), entity(101, "Build")];
    assert_eq!(scan_tasks(&mut cache, &listed, 7, &"Build".to_string(), 0), Some(101));
    assert_eq!(cache_get(&cache, &ScopeKey { scope: 7, name: "Design".to_string() }, 1), Some(&100));
    assert_eq!(cache_get(&cache, &ScopeKey { scope: 8, name: "Design".to_string() }, 1), None);
}

#[test]
fn label_scan_answers_title_or_empty() {
    let mut cache: Cache<String, String> = Cache::new(TTL);
    let listed = vec![label("l1", "deep work"), label("l2", "productive")];
    assert_eq!(scan_labels(&mut cache, &listed, &"l2".to_string(), 0), "productive");
    assert_eq!(scan_labels(&mut cache, &listed, &"l9".to_string(), 0), "");
    assert_eq!(cache_get(&cache, &"l1".to_string(), 1), Some(&"deep work".to_string()));
}

#[test]
fn second_resolution_short_circuits_on_the_cache() {
    let mut cache: Cache<String, i64> = Cache::new(TTL);
    let name = "Fresh Client".to_string();

    // First resolution: probe misses, the listing knows nothing, so the
    // caller creates the entity and records it.
    assert_eq!(cache_get(&cache, &name, 0), None);
    let listed = vec![entity(1, "Acme")];
    assert_eq!(scan_named_entities(&mut cache, &listed, &name, 0), None);
    let created_id = 55;
    cache_put(&mut cache, name.clone(), created_id, 5);

    // Second resolution, still within the time-to-live: the probe answers
    // the recorded identifier, so no listing and no second create happen.
    assert_eq!(cache_get(&cache, &name, 5 + TTL - 1), Some(&created_id));
}

#[test]
fn second_resolution_after_scan_hit_short_circuits() {
    let mut cache: Cache<String, i64> = Cache::new(TTL);
    let name = "Globex".to_string();
    let listed = vec![entity(1, "Acme"), entity(2, "Globex")];
    assert_eq!(scan_named_entities(&mut cache, &listed, &name, 0), Some(2));
    // The scan itself cached the match: the next resolution's probe hits.
    assert_eq!(cache_get(&cache, &name, TTL - 1), Some(&2));
}
