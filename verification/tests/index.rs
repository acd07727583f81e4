use firefox_user_installer::cache::Cache;
use firefox_user_installer::entry::CacheEntry;

fn entry(key: &str, file: &str, date: i64) -> CacheEntry {
    CacheEntry::with_date(key, file, 3600, "name.txt", date)
}

#[test]
fn new_index_is_empty() {
    let cache = Cache::new();
    assert_eq!(cache.len(), 0);
    assert!(cache.is_empty());
    assert!(cache.get("http://a").is_none());
    assert!(!cache.contains_key("http://a"));
    assert!(cache.entries().is_empty());
}

#[test]
fn inserted_entry_is_found_under_its_key() {
    let mut cache = Cache::new();
    let replaced = cache.insert(entry("http://a", "c_1.cache", 10));
    assert_eq!(replaced, None);
    assert_eq!(cache.len(), 1);
    assert!(!cache.is_empty());
    assert!(cache.contains_key("http://a"));
    assert_eq!(cache.get("http://a"), Some(&entry("http://a", "c_1.cache", 10)));
    assert_eq!(cache.get("http://b"), None);
}

#[test]
fn inserting_under_a_used_key_replaces_the_entry() {
    let mut cache = Cache::new();
    cache.insert(entry("http://a", "c_1.cache", 10));
    cache.insert(entry("http://b", "c_2.cache", 20));
    let replaced = cache.insert(entry("http://a", "c_3.cache", 30));
    assert_eq!(replaced, Some(entry("http://a", "c_1.cache", 10)));
    assert_eq!(cache.len(), 2);
    assert_eq!(cache.get("http://a"), Some(&entry("http://a", "c_3.cache", 30)));
    assert_eq!(cache.get("http://b"), Some(&entry("http://b", "c_2.cache", 20)));
}

#[test]
fn removed_entry_is_handed_back_and_gone() {
    let mut cache = Cache::new();
    cache.insert(entry("http://a", "c_1.cache", 10));
    cache.insert(entry("http://b", "c_2.cache", 20));
    cache.insert(entry("http://c", "c_3.cache", 30));
    assert_eq!(cache.remove("http://b"), Some(entry("http://b", "c_2.cache", 20)));
    assert_eq!(cache.len(), 2);
    assert_eq!(cache.get("http://b"), None);
    assert_eq!(cache.get("http://a"), Some(&entry("http://a", "c_1.cache", 10)));
    assert_eq!(cache.get("http://c"), Some(&entry("http://c", "c_3.cache", 30)));
}

#[test]
fn removing_an_absent_key_changes_nothing() {
    let mut cache = Cache::new();
    cache.insert(entry("http://a", "c_1.cache", 10));
    assert_eq!(cache.remove("http://z"), None);
    assert_eq!(cache.len(), 1);
    assert_eq!(cache.entries(), vec![entry("http://a", "c_1.cache", 10)]);
}

#[test]
fn keys_are_compared_exactly() {
    let mut cache = Cache::new();
    cache.insert(entry("http://a", "c_1.cache", 10));
    assert_eq!(cache.get("http://A"), None);
    assert_eq!(cache.get("http://a/"), None);
    assert_eq!(cache.get("http://a?"), None);
}

#[test]
fn entries_come_out_in_the_order_their_keys_were_filed() {
    let mut cache = Cache::new();
    cache.insert(entry("k1", "f1", 1));
    cache.insert(entry("k2", "f2", 2));
    cache.insert(entry("k3", "f3", 3));
    cache.insert(entry("k2", "f4", 4));
    assert_eq!(cache.entries(), vec![entry("k1", "f1", 1), entry("k2", "f4", 4), entry("k3", "f3", 3)]);
}

#[test]
fn index_from_entries_keeps_the_later_of_two_with_one_key() {
    let list = vec![entry("k1", "f1", 1), entry("k2", "f2", 2), entry("k1", "f3", 3)];
    let cache = Cache::from_entries(&list);
    assert_eq!(cache.len(), 2);
    assert_eq!(cache.get("k1"), Some(&entry("k1", "f3", 3)));
    assert_eq!(cache.get("k2"), Some(&entry("k2", "f2", 2)));
}

#[test]
fn index_from_no_entries_is_empty() {
    let cache = Cache::from_entries(&Vec::new());
    assert!(cache.is_empty());
}

#[test]
fn entries_and_from_entries_round_trip() {
    let mut cache = Cache::new();
    for i in 0..20 {
        cache.insert(entry(&format!("http://host/{}", i % 7), &format!("c_{}.cache", i), i));
    }
    let again = Cache::from_entries(&cache.entries());
    assert_eq!(again.entries(), cache.entries());
    assert_eq!(again.len(), 7);
}

#[test]
fn empty_key_is_a_key_like_any_other() {
    let mut cache = Cache::new();
    cache.insert(entry("", "f0", 0));
    assert_eq!(cache.get(""), Some(&entry("", "f0", 0)));
    assert_eq!(cache.remove(""), Some(entry("", "f0", 0)));
    assert!(cache.is_empty());
}
