//! The TTL cache: expiry, replacement, refresh and eviction.

use twitch_emote_api::cache::Cache;

#[test]
fn get_within_max_age_returns_value() {
    let mut c: Cache<u32> = Cache::new(1000);
    c.insert("k".to_string(), 7, 100);
    assert_eq!(c.get(&"k".to_string(), 1100), Some(&7));
}

#[test]
fn get_at_exact_max_age_still_live() {
    let mut c: Cache<u32> = Cache::new(1000);
    c.insert("k".to_string(), 7, 100);
    assert_eq!(c.get(&"k".to_string(), 1100), Some(&7));
    assert_eq!(c.get(&"k".to_string(), 1100), Some(&7));
}

#[test]
fn get_after_max_age_returns_absent() {
    let mut c: Cache<u32> = Cache::new(1000);
    c.insert("k".to_string(), 7, 100);
    assert_eq!(c.get(&"k".to_string(), 1101), None);
    // The stale entry was removed outright.
    assert_eq!(c.get(&"k".to_string(), 100), None);
}

#[test]
fn get_missing_key_returns_absent() {
    let mut c: Cache<u32> = Cache::new(1000);
    c.insert("k".to_string(), 7, 100);
    assert_eq!(c.get(&"other".to_string(), 100), None);
}

#[test]
fn insert_returns_previous_value() {
    let mut c: Cache<u32> = Cache::new(1000);
    assert_eq!(c.insert("k".to_string(), 7, 100), None);
    assert_eq!(c.insert("k".to_string(), 8, 200), Some(7));
    assert_eq!(c.get(&"k".to_string(), 300), Some(&8));
}

#[test]
fn refresh_resets_entry_age() {
    let mut c: Cache<u32> = Cache::new(1000);
    c.insert("k".to_string(), 7, 100);
    assert_eq!(c.refresh(&"k".to_string(), 900), Some(()));
    // Without the refresh this would be stale.
    assert_eq!(c.get(&"k".to_string(), 1500), Some(&7));
    assert_eq!(c.refresh(&"missing".to_string(), 900), None);
}

#[test]
fn get_mut_updates_in_place() {
    let mut c: Cache<u32> = Cache::new(1000);
    c.insert("k".to_string(), 7, 100);
    match c.get_mut(&"k".to_string(), 200) {
        Some(v) => *v = 9,
        None => panic!("live entry expected"),
    }
    assert_eq!(c.get(&"k".to_string(), 200), Some(&9));
    // A stale entry is not served mutably, and is left in place.
    assert!(c.get_mut(&"k".to_string(), 1101).is_none());
    assert_eq!(c.get(&"k".to_string(), 1100), Some(&9));
}

#[test]
fn evict_stale_drops_only_stale_entries() {
    let mut c: Cache<u32> = Cache::new(1000);
    c.insert("old".to_string(), 1, 0);
    c.insert("new".to_string(), 2, 600);
    c.evict_stale(1200);
    assert_eq!(c.get(&"old".to_string(), 1200), None);
    assert_eq!(c.get(&"new".to_string(), 1200), Some(&2));
}
