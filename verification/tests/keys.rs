use firefox_user_installer::key::normalize_url;
use firefox_user_installer::Downloader;

#[test]
fn one_trailing_slash_is_stripped() {
    assert_eq!(normalize_url("http://example.com/a/"), "http://example.com/a");
}

#[test]
fn all_trailing_slashes_are_stripped() {
    assert_eq!(normalize_url("http://example.com/a////"), "http://example.com/a");
}

#[test]
fn url_without_trailing_slash_is_its_own_key() {
    assert_eq!(normalize_url("http://example.com/a"), "http://example.com/a");
}

#[test]
fn inner_slashes_are_kept() {
    assert_eq!(normalize_url("http://example.com//a//b/"), "http://example.com//a//b");
}

#[test]
fn empty_url_has_empty_key() {
    assert_eq!(normalize_url(""), "");
}

#[test]
fn url_of_slashes_only_has_empty_key() {
    assert_eq!(normalize_url("/"), "");
    assert_eq!(normalize_url("///"), "");
}

#[test]
fn key_keeps_case_query_and_fragment() {
    assert_eq!(
        normalize_url("HTTPS://Example.COM/Path/?Product=Firefox&lang=en-US#Top"),
        "HTTPS://Example.COM/Path/?Product=Firefox&lang=en-US#Top"
    );
    assert_eq!(normalize_url("http://example.com/?q=1/"), "http://example.com/?q=1");
}

#[test]
fn urls_differing_by_query_have_different_keys() {
    assert_ne!(
        normalize_url("http://example.com/?lang=de"),
        normalize_url("http://example.com/?lang=fr")
    );
}

#[test]
fn key_of_url_with_characters_outside_ascii() {
    assert_eq!(normalize_url("http://example.com/v\u{1ec7}t/\u{fc}/"), "http://example.com/v\u{1ec7}t/\u{fc}");
    assert_eq!(normalize_url("\u{1f980}//"), "\u{1f980}");
}

#[test]
fn normalizing_twice_changes_nothing() {
    let urls = ["", "/", "a", "a/", "a//", "http://x/y/z///", "http://x/?a=/b/"];
    for url in urls {
        let once = normalize_url(url);
        assert_eq!(normalize_url(&once), once);
    }
}

#[test]
fn urls_differing_by_trailing_slashes_share_a_key() {
    let stem = "https://www.mozilla.org/en-US/firefox/all";
    let key = normalize_url(stem);
    let mut url = String::from(stem);
    for _ in 0..5 {
        url.push('/');
        assert_eq!(normalize_url(&url), key);
    }
}

#[test]
fn manager_normalizes_as_the_key_module_does() {
    assert_eq!(Downloader::normalize_url("http://example.com/a//"), "http://example.com/a");
    assert_eq!(Downloader::normalize_url("http://example.com/a"), "http://example.com/a");
}
