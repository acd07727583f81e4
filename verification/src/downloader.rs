//! The download cache manager: the index of one cache directory and the
//! operations that read and change it.
//!
//! The manager touches neither disk nor network. Where an operation asks for a
//! file to be deleted or for the index to be written, it says so in what it
//! returns, and the caller does it.

use vstd::prelude::*;
use vstd::string::StringExecFns;
use crate::cache::distinct_keys;
use crate::cache::filed_by_key;
use crate::cache::index_of;
use crate::cache::views_of;
use crate::cache::Cache;
use crate::clock::unix_time;
use crate::entry::CacheEntry;
use crate::entry::EntryView;
use crate::filename::filename_from_url;
use crate::filename::suggested_filename;
use crate::filename::url_path_segments;
use crate::key::normalize_url;
use crate::key::normalized;

verus! {

/// Name of the index file inside the cache directory.
pub const INDEX_FILE: &'static str = "cache.json";

/// The file name recorded where the server suggested none.
pub const DEFAULT_FILENAME: &'static str = "download";

/// The outcome of looking a URL up in the index.
#[derive(Debug, PartialEq, Eq)]
pub enum Lookup {
    /// The entry is there and still valid.
    Hit(CacheEntry),
    /// The entry was there but too old. It has been taken out of the index;
    /// its backing file is to be deleted and the index written.
    Expired(CacheEntry),
    /// There is no entry for the URL.
    Miss,
}

/// The mathematical value of a [`Lookup`].
pub enum LookupView {
    Hit(EntryView),
    Expired(EntryView),
    Miss,
}

impl View for Lookup {
    type V = LookupView;

    open spec fn view(&self) -> LookupView {
        match self {
            Lookup::Hit(entry) => LookupView::Hit(entry@),
            Lookup::Expired(entry) => LookupView::Expired(entry@),
            Lookup::Miss => LookupView::Miss,
        }
    }
}

/// What looking `url` up at time `now` finds in `index`.
pub open spec fn lookup(index: Map<Seq<char>, EntryView>, url: Seq<char>, now: int) -> LookupView {
    let key = normalized(url);
    if !index.contains_key(key) {
        LookupView::Miss
    } else if index[key].expired_at(now) {
        LookupView::Expired(index[key])
    } else {
        LookupView::Hit(index[key])
    }
}

/// The index after `url` was looked up at time `now`: an expired entry is
/// gone, anything else is as before.
pub open spec fn index_after_lookup(
    index: Map<Seq<char>, EntryView>,
    url: Seq<char>,
    now: int,
) -> Map<Seq<char>, EntryView> {
    if lookup(index, url, now) is Expired {
        index.remove(normalized(url))
    } else {
        index
    }
}

/// The entry that registering a file for `url` at time `now` writes.
pub open spec fn fresh_entry(
    url: Seq<char>,
    cache_file: Seq<char>,
    max_age: int,
    filename: Seq<char>,
    now: int,
) -> EntryView {
    EntryView { key: normalized(url), cache_file, date: now, max_age, filename }
}

/// The backing file of the entry filed under `key`, if there is one.
pub open spec fn backing_file(index: Map<Seq<char>, EntryView>, key: Seq<char>) -> Option<Seq<char>> {
    if index.contains_key(key) {
        Some(index[key].cache_file)
    } else {
        None
    }
}

/// The backing file that registering `cache_file` under `key` leaves without
/// an entry: that of the entry replaced, unless it is `cache_file` itself.
pub open spec fn orphaned_file(
    index: Map<Seq<char>, EntryView>,
    key: Seq<char>,
    cache_file: Seq<char>,
) -> Option<Seq<char>> {
    if index.contains_key(key) && index[key].cache_file != cache_file {
        Some(index[key].cache_file)
    } else {
        None
    }
}

/// The name to record in the index for a body: the suggested one, or the
/// default.
pub open spec fn name_or_default(suggested: Option<Seq<char>>) -> Seq<char> {
    match suggested {
        Some(name) => name,
        None => DEFAULT_FILENAME@,
    }
}

/// The index that a stored list of entries gives: empty where nothing could
/// be read.
pub open spec fn loaded_index(stored: Option<Seq<EntryView>>) -> Map<Seq<char>, EntryView> {
    match stored {
        Some(entries) => index_of(entries),
        None => Map::empty(),
    }
}

/// The values of an optional list of entries.
pub open spec fn stored_views(stored: Option<Vec<CacheEntry>>) -> Option<Seq<EntryView>> {
    match stored {
        Some(entries) => Some(views_of(entries@)),
        None => None,
    }
}

/// The manager of one cache directory.
#[derive(Debug)]
pub struct Downloader {
    cachedir: String,
    cache: Cache,
}

/// The mathematical value of a [`Downloader`].
pub struct DownloaderView {
    /// The directory that holds the index file and the backing files.
    pub cachedir: Seq<char>,
    /// The index, from key to entry.
    pub index: Map<Seq<char>, EntryView>,
}

impl DownloaderView {
    /// The same manager with another index.
    pub open spec fn with_index(self, index: Map<Seq<char>, EntryView>) -> DownloaderView {
        DownloaderView { cachedir: self.cachedir, index }
    }
}

impl View for Downloader {
    type V = DownloaderView;

    closed spec fn view(&self) -> DownloaderView {
        DownloaderView { cachedir: self.cachedir@, index: self.cache@ }
    }
}

impl Downloader {
    /// Whatever the index holds, it holds each entry under the entry's own
    /// key, and it holds finitely many.
    pub proof fn lemma_index_filed_by_key(self)
        ensures
            filed_by_key(self@.index),
            self@.index.dom().finite(),
    {
        self.cache.lemma_filed_by_key();
    }

    /// A manager for the directory `cachedir`. `stored` is what reading and
    /// parsing the directory's index file gave: its entries, or `None` where
    /// the file is missing, unreadable or not a valid index. In that case the
    /// manager starts with an empty index.
    pub fn new(cachedir: &str, stored: Option<Vec<CacheEntry>>) -> (downloader: Self)
        ensures
            downloader@.cachedir == cachedir@,
            downloader@.index == loaded_index(stored_views(stored)),
    {
        let cache = Self::load_cache(stored);
        Downloader { cachedir: String::from_str(cachedir), cache }
    }

    /// The directory this manager was made for.
    pub fn cachedir(&self) -> (dir: &str)
        ensures
            dir@ == self@.cachedir,
    {
        self.cachedir.as_str()
    }

    /// The cache key of `url`.
    pub fn normalize_url(url: &str) -> (key: String)
        ensures
            key@ == normalized(url@),
    {
        normalize_url(url)
    }

    /// The index that a stored list of entries gives. Where nothing could be
    /// read (`None`) the index is empty; where the list names a key twice, the
    /// later entry counts.
    pub fn load_cache(stored: Option<Vec<CacheEntry>>) -> (cache: Cache)
        ensures
            cache@ == loaded_index(stored_views(stored)),
    {
        match stored {
            Some(entries) => Cache::from_entries(&entries),
            None => Cache::new(),
        }
    }

    /// The entries to write to the index file: the whole index, no key twice.
    pub fn save_cache(&self) -> (entries: Vec<CacheEntry>)
        ensures
            distinct_keys(views_of(entries@)),
            loaded_index(stored_views(Some(entries))) == self@.index,
            entries@.len() == self@.index.len(),
    {
        self.cache.entries()
    }

    /// Looks `url` up at time `now`. An entry that is too old is not handed
    /// out as a hit but taken out of the index.
    pub fn get_cache_entry_at(&mut self, url: &str, now: i64) -> (found: Lookup)
        ensures
            found@ == lookup(old(self)@.index, url@, now as int),
            final(self)@ == old(self)@.with_index(index_after_lookup(old(self)@.index, url@, now as int)),
    {
        let key = normalize_url(url);
        let expired = match self.cache.get(key.as_str()) {
            Some(entry) => {
                if entry.is_expired(now) {
                    true
                } else {
                    return Lookup::Hit(entry.clone());
                }
            },
            None => false,
        };
        if expired {
            match self.cache.remove(key.as_str()) {
                Some(entry) => Lookup::Expired(entry),
                None => Lookup::Miss,
            }
        } else {
            Lookup::Miss
        }
    }

    /// Looks `url` up at the present time.
    pub fn get_cache_entry(&mut self, url: &str) -> (found: Lookup)
        ensures
            exists|now: int|
                {
                    &&& found@ == #[trigger] lookup(old(self)@.index, url@, now)
                    &&& final(self)@ == old(self)@.with_index(index_after_lookup(old(self)@.index, url@, now))
                },
    {
        let now = unix_time();
        self.get_cache_entry_at(url, now)
    }

    /// Registers `cache_file` as the body of `url`, written at time `now`,
    /// in place of any entry the URL had. Hands back the entry that was
    /// replaced; the index is to be written.
    pub fn add_cache_entry_at(
        &mut self,
        url: &str,
        cache_file: &str,
        max_age: i64,
        filename: &str,
        now: i64,
    ) -> (replaced: Option<CacheEntry>)
        ensures
            final(self)@ == old(self)@.with_index(
                old(self)@.index.insert(
                    normalized(url@),
                    fresh_entry(url@, cache_file@, max_age as int, filename@, now as int),
                ),
            ),
            match replaced {
                Some(prior) => old(self)@.index.contains_key(normalized(url@)) && prior@ == old(
                    self,
                )@.index[normalized(url@)],
                None => !old(self)@.index.contains_key(normalized(url@)),
            },
    {
        let key = normalize_url(url);
        let entry = CacheEntry::with_date(key.as_str(), cache_file, max_age, filename, now);
        self.cache.insert(entry)
    }

    /// Registers `cache_file` as the body of `url`, written now.
    pub fn add_cache_entry(&mut self, url: &str, cache_file: &str, max_age: i64, filename: &str) -> (replaced:
        Option<CacheEntry>)
        ensures
            exists|now: int|
                final(self)@ == old(self)@.with_index(
                    old(self)@.index.insert(
                        normalized(url@),
                        #[trigger] fresh_entry(url@, cache_file@, max_age as int, filename@, now),
                    ),
                ),
            match replaced {
                Some(prior) => old(self)@.index.contains_key(normalized(url@)) && prior@ == old(
                    self,
                )@.index[normalized(url@)],
                None => !old(self)@.index.contains_key(normalized(url@)),
            },
    {
        let now = unix_time();
        self.add_cache_entry_at(url, cache_file, max_age, filename, now)
    }

    /// Takes the entry of `url` out of the index and hands it back, so that
    /// its backing file can be deleted. Where the URL has no entry nothing
    /// changes.
    pub fn remove_cache_entry(&mut self, url: &str) -> (removed: Option<CacheEntry>)
        ensures
            final(self)@ == old(self)@.with_index(old(self)@.index.remove(normalized(url@))),
            match removed {
                Some(entry) => old(self)@.index.contains_key(normalized(url@)) && entry@ == old(
                    self,
                )@.index[normalized(url@)],
                None => !old(self)@.index.contains_key(normalized(url@)),
            },
    {
        let key = normalize_url(url);
        self.cache.remove(key.as_str())
    }

    /// Registers `cache_file` for `url` and names the backing file that this
    /// leaves without an entry.
    pub(crate) fn register(
        &mut self,
        url: &str,
        cache_file: &str,
        max_age: i64,
        filename: &str,
        now: i64,
    ) -> (discard: Option<String>)
        ensures
            final(self)@ == old(self)@.with_index(
                old(self)@.index.insert(
                    normalized(url@),
                    fresh_entry(url@, cache_file@, max_age as int, filename@, now as int),
                ),
            ),
            discard.deep_view() == orphaned_file(old(self)@.index, normalized(url@), cache_file@),
    {
        let file = String::from_str(cache_file);
        match self.add_cache_entry_at(url, cache_file, max_age, filename, now) {
            Some(prior) => if prior.cache_file == file {
                None
            } else {
                Some(prior.cache_file)
            },
            None => None,
        }
    }

    /// Takes the entry of `url` out of the index and names its backing file.
    pub(crate) fn evict(&mut self, url: &str) -> (discard: Option<String>)
        ensures
            final(self)@ == old(self)@.with_index(old(self)@.index.remove(normalized(url@))),
            discard.deep_view() == backing_file(old(self)@.index, normalized(url@)),
    {
        match self.remove_cache_entry(url) {
            Some(entry) => Some(entry.cache_file),
            None => None,
        }
    }

    /// The name to record for a body: the suggested one, or the default.
    pub(crate) fn recorded_name(suggested: &Option<String>) -> (name: String)
        ensures
            name@ == name_or_default(suggested.deep_view()),
    {
        match suggested {
            Some(name) => name.clone(),
            None => String::from_str(DEFAULT_FILENAME),
        }
    }

    /// The file name that the final URL of a response suggests for its body.
    pub fn get_filename(final_url: &str) -> (name: Option<String>)
        ensures
            name.deep_view() == suggested_filename(url_path_segments(final_url@)),
    {
        filename_from_url(final_url)
    }
}

} // verus!
