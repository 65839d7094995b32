//! Cache stability: a handle handed out by the source cache keeps naming
//! the same unchanged text, however many entries are inserted after it.

use css_bridge::bridge::SourceBridge;
use css_bridge::cache::SourceCache;

#[test]
fn entry_unchanged_after_a_thousand_later_inserts() {
    let mut cache = SourceCache::new();
    let handle = cache.insert(String::from("body { color: red }"));
    let snapshot = cache.contents(handle).clone();
    for i in 0..1000 {
        cache.insert(format!("/* filler {} */", i));
    }
    assert_eq!(cache.len(), 1001);
    assert_eq!(cache.contents(handle), &snapshot);
    assert_eq!(cache.contents(handle), "body { color: red }");
}

#[test]
fn handles_name_entries_in_insertion_order() {
    let mut cache = SourceCache::new();
    let a = cache.insert(String::from("a"));
    let b = cache.insert(String::from("b"));
    let c = cache.insert(String::from("c"));
    assert_eq!((a, b, c), (0, 1, 2));
    assert_eq!(cache.contents(a), "a");
    assert_eq!(cache.contents(b), "b");
    assert_eq!(cache.contents(c), "c");
}

#[test]
fn bridge_reference_for_a_css_stays_valid_and_unchanged() {
    let mut bridge = SourceBridge::new(None, None);
    let handle = bridge.store_local(String::from("content-of-a.css"));
    for i in 0..1000 {
        bridge.store_local(format!("content-of-other-{}.css", i));
    }
    assert_eq!(bridge.contents(handle), "content-of-a.css");
    assert_eq!(bridge.cache_len(), 1001);
}
