use firefox_user_installer::downloader::Lookup;
use firefox_user_installer::downloader::INDEX_FILE;
use firefox_user_installer::entry::CacheEntry;
use firefox_user_installer::Downloader;
use firefox_user_installer::Error;

fn entry(key: &str, file: &str, max_age: i64, name: &str, date: i64) -> CacheEntry {
    CacheEntry { key: key.to_string(), cache_file: file.to_string(), date, max_age, filename: name.to_string() }
}

#[test]
fn index_file_is_named_cache_json() {
    assert_eq!(INDEX_FILE, "cache.json");
}

#[test]
fn manager_without_stored_index_starts_empty() {
    let mut d = Downloader::new("/tmp/cache", None);
    assert_eq!(d.cachedir(), "/tmp/cache");
    assert!(d.save_cache().is_empty());
    assert_eq!(d.get_cache_entry_at("http://a", 0), Lookup::Miss);
}

#[test]
fn manager_starts_with_the_stored_entries() {
    let stored = vec![entry("http://a", "c_1.cache", 100, "a.txt", 1000), entry("http://b", "c_2.cache", 100, "", 1000)];
    let mut d = Downloader::new("cache", Some(stored.clone()));
    assert_eq!(d.save_cache(), stored);
    assert_eq!(d.get_cache_entry_at("http://a", 1050), Lookup::Hit(stored[0].clone()));
    assert_eq!(d.get_cache_entry_at("http://b/", 1050), Lookup::Hit(stored[1].clone()));
}

#[test]
fn load_cache_of_nothing_is_empty() {
    assert!(Downloader::load_cache(None).is_empty());
    assert!(Downloader::load_cache(Some(Vec::new())).is_empty());
}

#[test]
fn load_cache_keeps_the_later_duplicate() {
    let stored = vec![entry("k", "f1", 1, "n", 1), entry("k", "f2", 2, "n", 2)];
    let cache = Downloader::load_cache(Some(stored));
    assert_eq!(cache.entries(), vec![entry("k", "f2", 2, "n", 2)]);
}

#[test]
fn fresh_entry_is_found_at_once() {
    let mut d = Downloader::new("cache", None);
    let replaced = d.add_cache_entry_at("http://example.com/page/", "c_1.cache", 3600, "page", 5000);
    assert_eq!(replaced, None);
    let expected = entry("http://example.com/page", "c_1.cache", 3600, "page", 5000);
    assert_eq!(d.get_cache_entry_at("http://example.com/page/", 5000), Lookup::Hit(expected.clone()));
    assert_eq!(d.get_cache_entry_at("http://example.com/page", 5000), Lookup::Hit(expected.clone()));
    assert_eq!(d.get_cache_entry_at("http://example.com/page///", 5000), Lookup::Hit(expected.clone()));
    assert_eq!(d.save_cache(), vec![expected]);
}

#[test]
fn entry_is_valid_up_to_and_including_its_maximum_age() {
    let mut d = Downloader::new("cache", None);
    d.add_cache_entry_at("http://a", "c_1.cache", 3600, "a", 1000);
    let expected = entry("http://a", "c_1.cache", 3600, "a", 1000);
    assert_eq!(d.get_cache_entry_at("http://a", 1000 + 3599), Lookup::Hit(expected.clone()));
    assert_eq!(d.get_cache_entry_at("http://a", 1000 + 3600), Lookup::Hit(expected.clone()));
    assert_eq!(d.get_cache_entry_at("http://a", 1000 + 3601), Lookup::Expired(expected));
}

#[test]
fn expired_entry_is_evicted_by_the_lookup() {
    let mut d = Downloader::new("cache", None);
    d.add_cache_entry_at("http://a", "c_1.cache", 10, "a", 1000);
    d.add_cache_entry_at("http://b", "c_2.cache", 10_000, "b", 1000);
    assert_eq!(d.get_cache_entry_at("http://a", 2000), Lookup::Expired(entry("http://a", "c_1.cache", 10, "a", 1000)));
    assert_eq!(d.get_cache_entry_at("http://a", 2000), Lookup::Miss);
    assert_eq!(d.get_cache_entry_at("http://a", 1000), Lookup::Miss);
    assert_eq!(d.save_cache(), vec![entry("http://b", "c_2.cache", 10_000, "b", 1000)]);
}

#[test]
fn lookup_before_the_entry_was_written_is_a_hit() {
    let mut d = Downloader::new("cache", None);
    d.add_cache_entry_at("http://a", "c_1.cache", 10, "a", 1000);
    assert_eq!(d.get_cache_entry_at("http://a", 0), Lookup::Hit(entry("http://a", "c_1.cache", 10, "a", 1000)));
}

#[test]
fn entry_with_negative_maximum_age_is_expired_at_once() {
    let mut d = Downloader::new("cache", None);
    d.add_cache_entry_at("http://a", "c_1.cache", -1, "a", 1000);
    assert_eq!(d.get_cache_entry_at("http://a", 1000), Lookup::Expired(entry("http://a", "c_1.cache", -1, "a", 1000)));
}

#[test]
fn entry_with_maximum_age_zero_is_valid_in_its_own_second() {
    let mut d = Downloader::new("cache", None);
    d.add_cache_entry_at("http://a", "c_1.cache", 0, "a", 1000);
    assert_eq!(d.get_cache_entry_at("http://a", 1000), Lookup::Hit(entry("http://a", "c_1.cache", 0, "a", 1000)));
    assert_eq!(d.get_cache_entry_at("http://a", 1001), Lookup::Expired(entry("http://a", "c_1.cache", 0, "a", 1000)));
}

#[test]
fn expiry_is_decided_without_overflow() {
    let old = entry("k", "f", i64::MAX, "n", i64::MIN);
    assert!(old.is_expired(i64::MAX));
    assert!(!old.is_expired(-1));
    assert!(old.is_expired(0));
    let young = entry("k", "f", i64::MIN, "n", i64::MAX);
    assert!(!young.is_expired(i64::MIN));
    assert!(young.is_expired(0));
    let mut d = Downloader::new("cache", Some(vec![old.clone()]));
    assert_eq!(d.get_cache_entry_at("k", i64::MAX), Lookup::Expired(old));
}

#[test]
fn registering_again_replaces_and_hands_back_the_old_entry() {
    let mut d = Downloader::new("cache", None);
    d.add_cache_entry_at("http://a/", "c_1.cache", 3600, "a", 1000);
    let replaced = d.add_cache_entry_at("http://a", "c_2.cache", 60, "b", 2000);
    assert_eq!(replaced, Some(entry("http://a", "c_1.cache", 3600, "a", 1000)));
    assert_eq!(d.save_cache(), vec![entry("http://a", "c_2.cache", 60, "b", 2000)]);
}

#[test]
fn removed_entry_is_handed_back() {
    let mut d = Downloader::new("cache", None);
    d.add_cache_entry_at("http://a", "c_1.cache", 3600, "a", 1000);
    assert_eq!(d.remove_cache_entry("http://a//"), Some(entry("http://a", "c_1.cache", 3600, "a", 1000)));
    assert_eq!(d.remove_cache_entry("http://a"), None);
    assert!(d.save_cache().is_empty());
}

#[test]
fn urls_differing_by_query_are_cached_apart() {
    let mut d = Downloader::new("cache", None);
    d.add_cache_entry_at("http://a/?lang=de", "c_1.cache", 3600, "a", 1000);
    assert_eq!(d.get_cache_entry_at("http://a/?lang=fr", 1000), Lookup::Miss);
    assert_eq!(d.get_cache_entry_at("http://a/", 1000), Lookup::Miss);
    assert_eq!(d.get_cache_entry_at("HTTP://a/?lang=de", 1000), Lookup::Miss);
    assert!(matches!(d.get_cache_entry_at("http://a/?lang=de", 1000), Lookup::Hit(_)));
}

#[test]
fn entry_written_now_carries_the_present_time() {
    let e = CacheEntry::new("k", "f", 60, "n");
    assert_eq!(e.key, "k");
    assert_eq!(e.cache_file, "f");
    assert_eq!(e.max_age, 60);
    assert_eq!(e.filename, "n");
    assert!(e.date > 1_600_000_000);
}

#[test]
fn entry_registered_now_is_found_now() {
    let mut d = Downloader::new("cache", None);
    assert_eq!(d.add_cache_entry("http://a/", "c_1.cache", 3600, "a"), None);
    match d.get_cache_entry("http://a") {
        Lookup::Hit(e) => {
            assert_eq!(e.key, "http://a");
            assert_eq!(e.cache_file, "c_1.cache");
            assert_eq!(e.max_age, 3600);
            assert!(e.date > 1_600_000_000);
        }
        other => panic!("expected a hit, got {:?}", other),
    }
}

#[test]
fn entry_long_expired_is_evicted_now() {
    let mut d = Downloader::new("cache", Some(vec![entry("http://a", "c_1.cache", 3600, "a", 1000)]));
    assert_eq!(d.get_cache_entry("http://a"), Lookup::Expired(entry("http://a", "c_1.cache", 3600, "a", 1000)));
    assert_eq!(d.get_cache_entry("http://a"), Lookup::Miss);
}

#[test]
fn suggested_name_is_absent_where_none_was_recorded() {
    assert_eq!(entry("k", "f", 1, "", 1).suggested_name(), None);
    assert_eq!(entry("k", "f", 1, "x.tar", 1).suggested_name(), Some("x.tar"));
}

#[test]
fn error_keeps_its_message() {
    let e = Error::new("Extraction failed");
    assert_eq!(e.message(), "Extraction failed");
    assert_eq!(e.to_string(), "Extraction failed");
    assert_eq!(e.clone(), e);
    assert_eq!(Error::new("").message(), "");
}
