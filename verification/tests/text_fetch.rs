use std::collections::HashMap;

use firefox_user_installer::entry::CacheEntry;
use firefox_user_installer::error::FETCH_FAILED;
use firefox_user_installer::text::TextAction;
use firefox_user_installer::text::TextEvent;
use firefox_user_installer::text::TextResponse;
use firefox_user_installer::text::TextState;
use firefox_user_installer::downloader::DEFAULT_FILENAME;
use firefox_user_installer::text::TEXT_FILE_PREFIX;
use firefox_user_installer::text::TEXT_FILE_SUFFIX;
use firefox_user_installer::text::TEXT_MAX_AGE;
use firefox_user_installer::Downloader;
use firefox_user_installer::Error;

/// A cache directory and a server, both in memory.
struct World {
    files: HashMap<String, String>,
    saved: Option<Vec<CacheEntry>>,
    saves: usize,
    requests: usize,
    created: usize,
    server: Option<(String, String)>,
    disk_full: bool,
}

fn world(server: Option<(&str, &str)>) -> World {
    World {
        files: HashMap::new(),
        saved: None,
        saves: 0,
        requests: 0,
        created: 0,
        server: server.map(|(url, body)| (url.to_string(), body.to_string())),
        disk_full: false,
    }
}

fn upkeep(d: &Downloader, w: &mut World, discard: Option<String>, persist: bool) {
    if let Some(file) = discard {
        w.files.remove(&file);
    }
    if persist {
        w.saved = Some(d.save_cache());
        w.saves += 1;
    }
}

fn fetch_text(d: &mut Downloader, w: &mut World, url: &str, now: i64) -> Result<String, Error> {
    let mut state = TextState::Start;
    let mut event = TextEvent::Begin;
    loop {
        let (next, action) = d.download_to_string_at(url, state, event, now);
        state = next;
        event = match action {
            TextAction::ReadCache { file } => TextEvent::CacheRead(w.files.get(&file).cloned()),
            TextAction::Fetch { discard, persist } => {
                upkeep(d, w, discard, persist);
                w.requests += 1;
                TextEvent::Response(
                    w.server.clone().map(|(final_url, body)| TextResponse { final_url, body }),
                )
            }
            TextAction::Store { body } => {
                if w.disk_full {
                    TextEvent::Stored(None)
                } else {
                    w.created += 1;
                    let name = format!("{}{}{}", TEXT_FILE_PREFIX, w.created, TEXT_FILE_SUFFIX);
                    w.files.insert(name.clone(), body);
                    TextEvent::Stored(Some(name))
                }
            }
            TextAction::Finish { result, discard, persist } => {
                assert_eq!(state, TextState::Done);
                upkeep(d, w, discard, persist);
                return result;
            }
            TextAction::Ignored => panic!("the manager ignored an event of its own asking"),
        };
    }
}

#[test]
fn constants_of_the_text_fetch() {
    assert_eq!(TEXT_MAX_AGE, 3600);
    assert_eq!(DEFAULT_FILENAME, "download");
    assert_eq!(TEXT_FILE_PREFIX, "c_");
    assert_eq!(TEXT_FILE_SUFFIX, ".cache");
    assert_eq!(FETCH_FAILED, "fetch failed");
}

#[test]
fn text_is_fetched_once_and_then_served_from_the_cache() {
    let url = "https://www.mozilla.org/en-US/firefox/all/";
    let mut d = Downloader::new("cache", None);
    let mut w = world(Some(("https://www.mozilla.org/en-US/firefox/all", "hello")));

    assert_eq!(fetch_text(&mut d, &mut w, url, 1_000_000), Ok("hello".to_string()));
    assert_eq!(w.requests, 1);
    assert_eq!(w.saves, 1);
    let expected = CacheEntry {
        key: "https://www.mozilla.org/en-US/firefox/all".to_string(),
        cache_file: "c_1.cache".to_string(),
        date: 1_000_000,
        max_age: 3600,
        filename: "all".to_string(),
    };
    assert_eq!(w.saved, Some(vec![expected.clone()]));
    assert_eq!(w.files.get("c_1.cache"), Some(&"hello".to_string()));

    w.server = Some(("https://www.mozilla.org/en-US/firefox/all".to_string(), "changed".to_string()));
    assert_eq!(fetch_text(&mut d, &mut w, url, 1_000_000 + 3600), Ok("hello".to_string()));
    assert_eq!(fetch_text(&mut d, &mut w, "https://www.mozilla.org/en-US/firefox/all", 1_000_001), Ok("hello".to_string()));
    assert_eq!(w.requests, 1);
    assert_eq!(w.saves, 1);
    assert_eq!(d.save_cache(), vec![expected]);
}

#[test]
fn expired_text_is_fetched_again() {
    let url = "http://example.com/list";
    let mut d = Downloader::new("cache", None);
    let mut w = world(Some((url, "one")));
    assert_eq!(fetch_text(&mut d, &mut w, url, 100), Ok("one".to_string()));

    w.server = Some((url.to_string(), "two".to_string()));
    assert_eq!(fetch_text(&mut d, &mut w, url, 100 + 3601), Ok("two".to_string()));
    assert_eq!(w.requests, 2);
    assert_eq!(w.files.get("c_1.cache"), None);
    assert_eq!(w.files.get("c_2.cache"), Some(&"two".to_string()));
    assert_eq!(w.files.len(), 1);
    assert_eq!(
        d.save_cache(),
        vec![CacheEntry {
            key: url.to_string(),
            cache_file: "c_2.cache".to_string(),
            date: 3701,
            max_age: 3600,
            filename: "list".to_string(),
        }]
    );
    assert_eq!(w.saved, Some(d.save_cache()));
}

#[test]
fn text_whose_file_is_gone_is_fetched_again() {
    let url = "http://example.com/list";
    let mut d = Downloader::new("cache", None);
    let mut w = world(Some((url, "one")));
    assert_eq!(fetch_text(&mut d, &mut w, url, 100), Ok("one".to_string()));
    w.files.clear();

    assert_eq!(fetch_text(&mut d, &mut w, url, 200), Ok("one".to_string()));
    assert_eq!(w.requests, 2);
    assert_eq!(w.files.get("c_2.cache"), Some(&"one".to_string()));
    assert_eq!(d.save_cache().len(), 1);
    assert_eq!(d.save_cache()[0].cache_file, "c_2.cache");
    assert_eq!(d.save_cache()[0].date, 200);

    assert_eq!(fetch_text(&mut d, &mut w, url, 300), Ok("one".to_string()));
    assert_eq!(w.requests, 2);
}

#[test]
fn failed_request_is_an_error_and_caches_nothing() {
    let mut d = Downloader::new("cache", None);
    let mut w = world(None);
    assert_eq!(fetch_text(&mut d, &mut w, "http://example.com/", 100), Err(Error::new("fetch failed")));
    assert_eq!(w.requests, 1);
    assert_eq!(w.saves, 0);
    assert!(w.files.is_empty());
    assert!(d.save_cache().is_empty());
}

#[test]
fn failed_request_after_a_lost_file_leaves_the_entry_evicted() {
    let url = "http://example.com/list";
    let mut d = Downloader::new("cache", None);
    let mut w = world(Some((url, "one")));
    assert_eq!(fetch_text(&mut d, &mut w, url, 100), Ok("one".to_string()));
    w.files.clear();
    w.server = None;
    assert_eq!(fetch_text(&mut d, &mut w, url, 200), Err(Error::new(FETCH_FAILED)));
    assert!(d.save_cache().is_empty());
}

#[test]
fn text_is_handed_out_even_if_it_cannot_be_stored() {
    let url = "http://example.com/list";
    let mut d = Downloader::new("cache", None);
    let mut w = world(Some((url, "body")));
    w.disk_full = true;
    assert_eq!(fetch_text(&mut d, &mut w, url, 100), Ok("body".to_string()));
    assert_eq!(w.saves, 0);
    assert!(d.save_cache().is_empty());
    assert_eq!(fetch_text(&mut d, &mut w, url, 101), Ok("body".to_string()));
    assert_eq!(w.requests, 2);
}

#[test]
fn text_without_a_suggested_name_is_recorded_under_the_default() {
    let url = "https://example.com/";
    let mut d = Downloader::new("cache", None);
    let mut w = world(Some((url, "front page")));
    assert_eq!(fetch_text(&mut d, &mut w, url, 100), Ok("front page".to_string()));
    assert_eq!(d.save_cache()[0].filename, "download");
    assert_eq!(d.save_cache()[0].key, "https://example.com");
}

#[test]
fn name_is_taken_from_the_final_url_not_the_requested_one() {
    let mut d = Downloader::new("cache", None);
    let mut w = world(Some(("https://cdn.example.com/files/list.html?x=1", "body")));
    assert_eq!(fetch_text(&mut d, &mut w, "https://example.com/go?to=list", 100), Ok("body".to_string()));
    assert_eq!(d.save_cache()[0].filename, "list.html");
    assert_eq!(d.save_cache()[0].key, "https://example.com/go?to=list");
}

#[test]
fn text_steps_one_by_one_on_a_miss() {
    let mut d = Downloader::new("cache", None);
    let url = "http://example.com/a/";
    let (state, action) = d.download_to_string_at(url, TextState::Start, TextEvent::Begin, 10);
    assert_eq!(state, TextState::Fetching);
    assert_eq!(action, TextAction::Fetch { discard: None, persist: false });

    let response = TextResponse { final_url: "http://example.com/a/".to_string(), body: "text".to_string() };
    let (state, action) = d.download_to_string_at(url, state, TextEvent::Response(Some(response)), 11);
    assert_eq!(state, TextState::Storing { body: "text".to_string(), filename: "download".to_string() });
    assert_eq!(action, TextAction::Store { body: "text".to_string() });

    let (state, action) = d.download_to_string_at(url, state, TextEvent::Stored(Some("c_x.cache".to_string())), 12);
    assert_eq!(state, TextState::Done);
    assert_eq!(action, TextAction::Finish { result: Ok("text".to_string()), discard: None, persist: true });
    assert_eq!(
        d.save_cache(),
        vec![CacheEntry {
            key: "http://example.com/a".to_string(),
            cache_file: "c_x.cache".to_string(),
            date: 12,
            max_age: 3600,
            filename: "download".to_string(),
        }]
    );
}

#[test]
fn text_steps_one_by_one_on_a_hit() {
    let stored = CacheEntry::with_date("http://example.com/a", "c_7.cache", 3600, "a", 1000);
    let mut d = Downloader::new("cache", Some(vec![stored.clone()]));
    let (state, action) = d.download_to_string_at("http://example.com/a/", TextState::Start, TextEvent::Begin, 2000);
    assert_eq!(state, TextState::Reading);
    assert_eq!(action, TextAction::ReadCache { file: "c_7.cache".to_string() });
    let (state, action) =
        d.download_to_string_at("http://example.com/a/", state, TextEvent::CacheRead(Some("cached".to_string())), 2000);
    assert_eq!(state, TextState::Done);
    assert_eq!(action, TextAction::Finish { result: Ok("cached".to_string()), discard: None, persist: false });
    assert_eq!(d.save_cache(), vec![stored]);
}

#[test]
fn expired_entry_is_discarded_and_the_index_written_before_the_request() {
    let stored = CacheEntry::with_date("http://example.com/a", "c_7.cache", 3600, "a", 1000);
    let mut d = Downloader::new("cache", Some(vec![stored]));
    let (state, action) = d.download_to_string_at("http://example.com/a", TextState::Start, TextEvent::Begin, 4601);
    assert_eq!(state, TextState::Fetching);
    assert_eq!(action, TextAction::Fetch { discard: Some("c_7.cache".to_string()), persist: true });
    assert!(d.save_cache().is_empty());
}

#[test]
fn unreadable_cached_file_is_discarded_before_the_request() {
    let stored = CacheEntry::with_date("http://example.com/a", "c_7.cache", 3600, "a", 1000);
    let mut d = Downloader::new("cache", Some(vec![stored]));
    let (state, _) = d.download_to_string_at("http://example.com/a", TextState::Start, TextEvent::Begin, 2000);
    let (state, action) = d.download_to_string_at("http://example.com/a", state, TextEvent::CacheRead(None), 2000);
    assert_eq!(state, TextState::Fetching);
    assert_eq!(action, TextAction::Fetch { discard: Some("c_7.cache".to_string()), persist: false });
    assert!(d.save_cache().is_empty());
}

#[test]
fn storing_over_an_entry_names_the_file_left_behind() {
    let mut d = Downloader::new("cache", None);
    d.add_cache_entry_at("http://example.com/a", "c_old.cache", 3600, "a", 1000);
    let storing = TextState::Storing { body: "new".to_string(), filename: "a".to_string() };
    let (state, action) =
        d.download_to_string_at("http://example.com/a", storing, TextEvent::Stored(Some("c_new.cache".to_string())), 2000);
    assert_eq!(state, TextState::Done);
    assert_eq!(
        action,
        TextAction::Finish { result: Ok("new".to_string()), discard: Some("c_old.cache".to_string()), persist: true }
    );
    assert_eq!(d.save_cache()[0].cache_file, "c_new.cache");
}

#[test]
fn storing_under_the_same_file_name_discards_nothing() {
    let mut d = Downloader::new("cache", None);
    d.add_cache_entry_at("http://example.com/a", "c_same.cache", 3600, "a", 1000);
    let storing = TextState::Storing { body: "new".to_string(), filename: "a".to_string() };
    let (_, action) =
        d.download_to_string_at("http://example.com/a", storing, TextEvent::Stored(Some("c_same.cache".to_string())), 2000);
    assert_eq!(action, TextAction::Finish { result: Ok("new".to_string()), discard: None, persist: true });
    assert_eq!(d.save_cache()[0].date, 2000);
}

#[test]
fn event_out_of_turn_is_ignored() {
    let stored = CacheEntry::with_date("http://example.com/a", "c_7.cache", 3600, "a", 1000);
    let mut d = Downloader::new("cache", Some(vec![stored.clone()]));
    let url = "http://example.com/a";
    let cases = vec![
        (TextState::Start, TextEvent::CacheRead(None)),
        (TextState::Start, TextEvent::Stored(Some("f".to_string()))),
        (TextState::Reading, TextEvent::Begin),
        (TextState::Reading, TextEvent::Response(None)),
        (TextState::Fetching, TextEvent::CacheRead(Some("t".to_string()))),
        (TextState::Fetching, TextEvent::Stored(None)),
        (TextState::Storing { body: "b".to_string(), filename: "n".to_string() }, TextEvent::Begin),
        (TextState::Done, TextEvent::Begin),
        (TextState::Done, TextEvent::Stored(Some("f".to_string()))),
    ];
    for (state, event) in cases {
        let before = format!("{:?}", state);
        let (after, action) = d.download_to_string_at(url, state, event, 5000);
        assert_eq!(format!("{:?}", after), before);
        assert_eq!(action, TextAction::Ignored);
        assert_eq!(d.save_cache(), vec![stored.clone()]);
    }
}

#[test]
fn text_fetch_by_the_clock_starts_with_a_request_on_an_empty_cache() {
    let mut d = Downloader::new("cache", None);
    let (state, action) = d.download_to_string("http://example.com/a", TextState::Start, TextEvent::Begin);
    assert_eq!(state, TextState::Fetching);
    assert_eq!(action, TextAction::Fetch { discard: None, persist: false });
}

#[test]
fn text_fetch_by_the_clock_registers_with_the_present_time() {
    let mut d = Downloader::new("cache", None);
    let storing = TextState::Storing { body: "b".to_string(), filename: "n".to_string() };
    let (_, action) = d.download_to_string("http://example.com/a", storing, TextEvent::Stored(Some("c_1.cache".to_string())));
    assert_eq!(action, TextAction::Finish { result: Ok("b".to_string()), discard: None, persist: true });
    assert!(d.save_cache()[0].date > 1_600_000_000);
    let (state, action) = d.download_to_string("http://example.com/a", TextState::Start, TextEvent::Begin);
    assert_eq!(state, TextState::Reading);
    assert_eq!(action, TextAction::ReadCache { file: "c_1.cache".to_string() });
}
