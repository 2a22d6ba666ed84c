//! The registry and its store: lazy creation, the one-controller-per-id
//! guarantee, and the query surface.

use robotix::crane::Crane;
use robotix::models::{CraneDimensions, CraneLimits, CraneState};
use robotix::registry::{Database, Registry};

fn record(id: &str, base_height: i64) -> Crane {
    let mut dims = CraneDimensions::default();
    dims.base_height = base_height;
    Crane::new(String::from(id), dims, CraneLimits::default())
}

/// Repeated access for one identifier yields the same single controller:
/// the second call creates nothing.
#[test]
fn get_or_create_is_idempotent() {
    let mut registry = Registry::new(Database::new(Vec::new()));
    let id = String::from("alpha");
    let first = registry.get_or_create(&id);
    assert_eq!(registry.robots.len(), 1);
    let second = registry.get_or_create(&id);
    assert_eq!(first, second);
    assert_eq!(registry.robots.len(), 1);
    let other = registry.get_or_create(&String::from("beta"));
    assert_ne!(first, other);
    assert_eq!(registry.robots.len(), 2);
}

/// A controller for an identifier the store knows is created from its
/// record; an unknown identifier gets the hard-coded default geometry.
#[test]
fn creation_uses_store_record_or_default() {
    let db = Database::new(vec![record("stored", 777)]);
    let mut registry = Registry::new(db);
    let idx = registry.get_or_create(&String::from("stored"));
    assert_eq!(registry.robots[idx].dimensions.base_height, 777);
    let idx = registry.get_or_create(&String::from("unknown"));
    assert_eq!(
        registry.robots[idx].dimensions.base_height,
        CraneDimensions::default().base_height
    );
    assert_eq!(registry.robots[idx].state, CraneState::default());
}

/// Details are found for a running controller and for a stored record,
/// and a direct query for an unknown identifier is not-found and creates
/// nothing.
#[test]
fn details_found_or_not_found() {
    let db = Database::new(vec![record("stored", 321)]);
    let mut registry = Registry::new(db);
    let details = registry
        .get_crane_details(&String::from("stored"))
        .expect("stored record must be found");
    assert_eq!(details.id, "stored");
    assert_eq!(details.dimensions.base_height, 321);
    assert_eq!(registry.robots.len(), 1);

    let missing = registry.get_crane_details(&String::from("ghost"));
    assert!(missing.is_none());
    assert_eq!(registry.robots.len(), 1);
}

/// All-details materializes one controller per store record and returns
/// one snapshot per record, in store order.
#[test]
fn all_details_materializes_store() {
    let db = Database::new(vec![record("one", 100), record("two", 200)]);
    let mut registry = Registry::new(db);
    let all = registry.get_all_crane_details();
    assert_eq!(all.len(), 2);
    let mut ids: Vec<String> = all.iter().map(|d| d.id.clone()).collect();
    ids.sort();
    assert_eq!(ids, vec![String::from("one"), String::from("two")]);
    assert_eq!(registry.robots.len(), 2);
    let again = registry.get_all_crane_details();
    assert_eq!(again.len(), 2);
    assert_eq!(registry.robots.len(), 2);
}

/// When several store records carry one identifier, the last record wins
/// and the store keeps a single entry for it.
#[test]
fn duplicate_store_records_last_wins() {
    let db = Database::new(vec![record("dup", 111), record("dup", 222)]);
    assert_eq!(db.cranes.len(), 1);
    let found = db.get(&String::from("dup")).expect("must be present");
    assert_eq!(found.dimensions.base_height, 222);
}

/// Store lookups answer presence exactly.
#[test]
fn database_get_and_get_all() {
    let db = Database::new(vec![record("a", 1), record("b", 2)]);
    assert!(db.get(&String::from("a")).is_some());
    assert!(db.get(&String::from("b")).is_some());
    assert!(db.get(&String::from("c")).is_none());
    assert_eq!(db.get_all().len(), 2);
}
