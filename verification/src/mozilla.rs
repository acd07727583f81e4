//! What the installer knows of Mozilla's site: where a build is downloaded
//! from, how the list of languages is read off the download page, and which
//! of them fits the user's locale.

use vstd::prelude::*;
use vstd::string::StrSliceExecFns;
use vstd::string::StringExecFns;

verus! {

/// The page that lists the languages in which the browser is offered.
pub const LANGUAGES_URL: &'static str =
    "https://www.mozilla.org/en-US/firefox/all/#product-desktop-release";

/// The pattern of the page's language menu.
pub const SELECT_PATTERN: &'static str =
    "(?s)<select id=\"select_desktop_release_language\".*?>.*?</select>";

/// The pattern of one entry of the menu: first the language's code, then its
/// name.
pub const OPTION_PATTERN: &'static str = "<option value=\"(.*?)\">(.*?)</option>";

/// Code of the language that is always offered, listed or not.
pub const DEFAULT_CODE: &'static str = "en-US";

/// Name of the language that is always offered.
pub const DEFAULT_NAME: &'static str = "English (US)";

/// What a download URL starts with, up to the product.
pub const DOWNLOAD_PREFIX: &'static str = "https://download.mozilla.org/?product=";

/// What stands before the operating system in a download URL.
pub const DOWNLOAD_OS: &'static str = "&os=";

/// What stands before the language in a download URL.
pub const DOWNLOAD_LANG: &'static str = "&lang=";

/// The first match of the regular expression `pattern` in `text`, as the
/// regex crate's `Regex::new` followed by `Regex::find` gives it: the text of
/// the leftmost match, `None` where there is no match or the pattern does not
/// compile.
pub uninterp spec fn regex_first_match(pattern: Seq<char>, text: Seq<char>) -> Option<Seq<char>>;

/// All matches of the regular expression `pattern` in `text`, as the regex
/// crate's `Regex::new` followed by `Regex::captures_iter` gives them: for
/// each match, in the order found, the text of each capture group as
/// `Captures::iter` yields it, the whole match first, `None` for a group that
/// took no part. No matches where the pattern does not compile.
pub uninterp spec fn regex_all_captures(pattern: Seq<char>, text: Seq<char>) -> Seq<
    Seq<Option<Seq<char>>>,
>;

/// Compiles `pattern` and searches `text` for its first match.
///
/// The result is a function of the two texts alone; it is known to the proofs
/// only by the name [`regex_first_match`].
#[verifier::external_body]
fn first_match(pattern: &str, text: &str) -> (found: Option<String>)
    ensures
        found.deep_view() == regex_first_match(pattern@, text@),
{
    let compiled = regex::Regex::new(pattern).ok()?;
    compiled.find(text).map(|m| String::from(m.as_str()))
}

/// Compiles `pattern` and collects the capture groups of all its matches in
/// `text`.
///
/// The result is a function of the two texts alone; it is known to the proofs
/// only by the name [`regex_all_captures`].
#[verifier::external_body]
fn all_captures(pattern: &str, text: &str) -> (found: Vec<Vec<Option<String>>>)
    ensures
        found.deep_view() == regex_all_captures(pattern@, text@),
{
    match regex::Regex::new(pattern) {
        Ok(compiled) => compiled.captures_iter(text).map(
            |c| c.iter().map(|g| g.map(|m| String::from(m.as_str()))).collect(),
        ).collect(),
        Err(_) => Vec::new(),
    }
}

/// The values of a list of languages, each a code and a name.
pub open spec fn pairs_view(list: Seq<(String, String)>) -> Seq<(Seq<char>, Seq<char>)> {
    list.map_values(|pair: (String, String)| (pair.0@, pair.1@))
}

/// The language that one match of the entry pattern stands for: its first
/// group is the code, its second the name. A match without both is none.
pub open spec fn option_of(groups: Seq<Option<Seq<char>>>) -> Option<(Seq<char>, Seq<char>)> {
    if groups.len() >= 3 && groups[1] is Some && groups[2] is Some {
        Some((groups[1]->0, groups[2]->0))
    } else {
        None
    }
}

/// The languages that a list of matches stands for, in the order of the
/// matches.
pub open spec fn options_of(matches: Seq<Seq<Option<Seq<char>>>>) -> Seq<(Seq<char>, Seq<char>)>
    decreases matches.len(),
{
    if matches.len() == 0 {
        Seq::empty()
    } else {
        match option_of(matches.last()) {
            Some(pair) => options_of(matches.drop_last()).push(pair),
            None => options_of(matches.drop_last()),
        }
    }
}

/// The list of languages read off a menu: the default language first, then
/// the menu's entries.
pub open spec fn language_list(matches: Seq<Seq<Option<Seq<char>>>>) -> Seq<(Seq<char>, Seq<char>)> {
    seq![(DEFAULT_CODE@, DEFAULT_NAME@)] + options_of(matches)
}

/// The list of languages that the matches of the entry pattern stand for.
pub fn languages_from_matches(matches: &Vec<Vec<Option<String>>>) -> (list: Vec<(String, String)>)
    ensures
        pairs_view(list@) == language_list(matches.deep_view()),
{
    let mut list: Vec<(String, String)> = Vec::new();
    list.push((String::from_str(DEFAULT_CODE), String::from_str(DEFAULT_NAME)));
    let ghost all = matches.deep_view();
    proof {
        assert(all.take(0) =~= Seq::empty());
        assert(pairs_view(list@) =~= language_list(all.take(0)));
    }
    let mut i: usize = 0;
    while i < matches.len()
        invariant
            i <= matches@.len(),
            all == matches.deep_view(),
            all.len() == matches@.len(),
            pairs_view(list@) == language_list(all.take(i as int)),
        decreases matches@.len() - i,
    {
        let groups = &matches[i];
        proof {
            assert(all.take(i + 1).drop_last() =~= all.take(i as int));
            assert(all.take(i + 1).last() == groups.deep_view());
        }
        let ghost before = list@;
        if groups.len() >= 3 {
            match (&groups[1], &groups[2]) {
                (Some(code), Some(name)) => {
                    list.push((code.clone(), name.clone()));
                    proof {
                        assert(groups.deep_view()[1] == Some(code@));
                        assert(groups.deep_view()[2] == Some(name@));
                        assert(pairs_view(list@) =~= pairs_view(before).push((code@, name@)));
                        assert(language_list(all.take(i + 1)) =~= language_list(all.take(i as int)).push(
                            (code@, name@),
                        ));
                    }
                },
                _ => {
                    proof {
                        assert(groups.deep_view()[1] == groups@[1].deep_view());
                        assert(groups.deep_view()[2] == groups@[2].deep_view());
                    }
                },
            }
        }
        i = i + 1;
    }
    proof {
        assert(all.take(i as int) =~= all);
    }
    list
}

/// The languages that a download page offers: the default language, then the
/// entries of the page's language menu. `None` where the page has no such
/// menu.
pub fn languages(page: &str) -> (list: Option<Vec<(String, String)>>)
    ensures
        match regex_first_match(SELECT_PATTERN@, page@) {
            Some(menu) => list matches Some(found) && pairs_view(found@) == language_list(
                regex_all_captures(OPTION_PATTERN@, menu),
            ),
            None => list is None,
        },
{
    match first_match(SELECT_PATTERN, page) {
        Some(menu) => {
            let matches = all_captures(OPTION_PATTERN, menu.as_str());
            Some(languages_from_matches(&matches))
        },
        None => None,
    }
}

/// Whether the list offers a language with the code `code`.
pub open spec fn has_code(list: Seq<(Seq<char>, Seq<char>)>, code: Seq<char>) -> bool {
    exists|i: int| 0 <= i < list.len() && (#[trigger] list[i]).0 == code
}

/// The code `lang` as the list has it, if the list offers that language.
pub fn find_language<'a>(languages: &'a Vec<(String, String)>, lang: &str) -> (found: Option<&'a str>)
    ensures
        match found {
            Some(code) => code@ == lang@ && has_code(pairs_view(languages@), lang@),
            None => !has_code(pairs_view(languages@), lang@),
        },
{
    let wanted = String::from_str(lang);
    let mut i: usize = 0;
    while i < languages.len()
        invariant
            i <= languages@.len(),
            wanted@ == lang@,
            forall|j: int| 0 <= j < i ==> (#[trigger] pairs_view(languages@)[j]).0 != lang@,
        decreases languages@.len() - i,
    {
        if languages[i].0 == wanted {
            proof {
                assert(pairs_view(languages@)[i as int].0 == lang@);
            }
            return Some(languages[i].0.as_str());
        }
        i = i + 1;
    }
    None
}

/// How many characters of `text` stand before the first `mark`; all of them
/// where `mark` does not occur.
pub open spec fn first_at(text: Seq<char>, mark: char) -> int
    decreases text.len(),
{
    if text.len() == 0 || text.first() == mark {
        0
    } else {
        1 + first_at(text.drop_first(), mark)
    }
}

/// The part of `text` before the first `mark`; all of it where `mark` does not
/// occur.
pub open spec fn before_first(text: Seq<char>, mark: char) -> Seq<char> {
    text.take(first_at(text, mark))
}

/// `text` with a hyphen in place of each underscore.
pub open spec fn hyphenated(text: Seq<char>) -> Seq<char> {
    text.map_values(|c: char| if c == '_' { '-' } else { c })
}

/// The language tag of a locale such as `de_DE.UTF-8`: the part before the
/// first dot, with hyphens for underscores.
pub open spec fn locale_tag(locale: Seq<char>) -> Seq<char> {
    hyphenated(before_first(locale, '.'))
}

/// The language to offer a user whose locale is `locale`: the one whose code
/// is the locale's tag, else the one whose code is the tag up to its first
/// hyphen, else none.
pub open spec fn detected_language(list: Seq<(Seq<char>, Seq<char>)>, locale: Option<Seq<char>>) -> Option<
    Seq<char>,
> {
    match locale {
        Some(text) => {
            let tag = locale_tag(text);
            let short = before_first(tag, '-');
            if has_code(list, tag) {
                Some(tag)
            } else if has_code(list, short) {
                Some(short)
            } else {
                None
            }
        },
        None => None,
    }
}

/// The first `mark` of `text` stands where nothing before it is a `mark` and
/// the text ends or has a `mark` there.
pub proof fn lemma_first_at(text: Seq<char>, mark: char, n: int)
    requires
        0 <= n <= text.len(),
        forall|i: int| 0 <= i < n ==> text[i] != mark,
        n == text.len() || text[n] == mark,
    ensures
        first_at(text, mark) == n,
    decreases text.len(),
{
    if n > 0 {
        let rest = text.drop_first();
        assert forall|i: int| 0 <= i < n - 1 implies rest[i] != mark by {
            assert(rest[i] == text[i + 1]);
        }
        lemma_first_at(rest, mark, n - 1);
    }
}

/// The number of characters of `text` before the first `mark`.
fn prefix_len(text: &str, mark: char) -> (n: usize)
    ensures
        n == first_at(text@, mark),
        n <= text@.len(),
{
    let len: usize = text.unicode_len();
    let mut n: usize = 0;
    while n < len && text.get_char(n) != mark
        invariant
            n <= len,
            len == text@.len(),
            forall|i: int| 0 <= i < n ==> text@[i] != mark,
        decreases len - n,
    {
        n = n + 1;
    }
    proof {
        lemma_first_at(text@, mark, n as int);
    }
    n
}

/// The language tag of a locale.
pub fn tag_of_locale(locale: &str) -> (tag: String)
    ensures
        tag@ == locale_tag(locale@),
{
    let end: usize = prefix_len(locale, '.');
    let mut tag = String::new();
    let mut i: usize = 0;
    proof {
        reveal_strlit("-");
        assert(locale@.take(end as int).take(0) =~= Seq::empty());
        assert(tag@ =~= hyphenated(locale@.take(end as int).take(0)));
    }
    while i < end
        invariant
            i <= end <= locale@.len(),
            "-"@ == seq!['-'],
            tag@ == hyphenated(locale@.take(end as int).take(i as int)),
        decreases end - i,
    {
        let c = locale.get_char(i);
        let ghost before = tag@;
        if c == '_' {
            tag.append("-");
        } else {
            tag.append(locale.substring_char(i, i + 1));
        }
        proof {
            let stem = locale@.take(end as int);
            assert(locale@.subrange(i as int, i + 1) =~= seq![c]);
            assert(stem.take(i + 1) =~= stem.take(i as int).push(c));
            assert(tag@ =~= hyphenated(stem.take(i + 1)));
        }
        i = i + 1;
    }
    proof {
        assert(locale@.take(end as int).take(end as int) =~= locale@.take(end as int));
    }
    tag
}

/// The language to preselect for a user whose locale (the value of `LANG`) is
/// `locale`, out of those that the list offers.
pub fn detect_language<'a>(languages: &'a Vec<(String, String)>, locale: Option<&str>) -> (found: Option<
    &'a str,
>)
    ensures
        match found {
            Some(code) => detected_language(pairs_view(languages@), locale.deep_view()) == Some(code@),
            None => detected_language(pairs_view(languages@), locale.deep_view()) is None,
        },
{
    match locale {
        Some(text) => {
            let tag = tag_of_locale(text);
            match find_language(languages, tag.as_str()) {
                Some(code) => Some(code),
                None => {
                    let end: usize = prefix_len(tag.as_str(), '-');
                    proof {
                        assert(tag@.subrange(0, end as int) =~= tag@.take(end as int));
                    }
                    find_language(languages, tag.as_str().substring_char(0, end))
                },
            }
        },
        None => None,
    }
}

/// The URL from which the build of `product` for the operating system `os`
/// in the language `lang` is downloaded.
pub open spec fn download_url_of(product: Seq<char>, os: Seq<char>, lang: Seq<char>) -> Seq<char> {
    DOWNLOAD_PREFIX@ + product + DOWNLOAD_OS@ + os + DOWNLOAD_LANG@ + lang
}

/// The URL from which a build is downloaded.
pub fn download_url(product: &str, os: &str, lang: &str) -> (url: String)
    ensures
        url@ == download_url_of(product@, os@, lang@),
{
    let mut url = String::from_str(DOWNLOAD_PREFIX);
    url.append(product);
    url.append(DOWNLOAD_OS);
    url.append(os);
    url.append(DOWNLOAD_LANG);
    url.append(lang);
    url
}

} // verus!
