//! One row of the cache index.

use vstd::prelude::*;
use vstd::string::StringExecFns;
use crate::clock::unix_time;

verus! {

/// What the index records of one cached URL.
#[derive(Debug, PartialEq, Eq)]
pub struct CacheEntry {
    /// The normalized URL under which the entry is found.
    pub key: String,
    /// Name of the file inside the cache directory that holds the body.
    pub cache_file: String,
    /// When the entry was written, in seconds since the Unix epoch.
    pub date: i64,
    /// How many seconds after `date` the entry stays valid.
    pub max_age: i64,
    /// The file name that the server suggested; empty where it suggested none.
    pub filename: String,
}

/// The mathematical value of a [`CacheEntry`].
pub struct EntryView {
    pub key: Seq<char>,
    pub cache_file: Seq<char>,
    pub date: int,
    pub max_age: int,
    pub filename: Seq<char>,
}

impl EntryView {
    /// An entry is expired at `now` once more than `max_age` seconds have
    /// passed since it was written.
    pub open spec fn expired_at(self, now: int) -> bool {
        now - self.date > self.max_age
    }
}

impl View for CacheEntry {
    type V = EntryView;

    open spec fn view(&self) -> EntryView {
        EntryView {
            key: self.key@,
            cache_file: self.cache_file@,
            date: self.date as int,
            max_age: self.max_age as int,
            filename: self.filename@,
        }
    }
}

impl Clone for CacheEntry {
    fn clone(&self) -> (copy: Self)
        ensures
            copy@ == self@,
    {
        CacheEntry {
            key: self.key.clone(),
            cache_file: self.cache_file.clone(),
            date: self.date,
            max_age: self.max_age,
            filename: self.filename.clone(),
        }
    }
}

impl CacheEntry {
    /// An entry written at `date`.
    pub fn with_date(key: &str, cache_file: &str, max_age: i64, filename: &str, date: i64) -> (entry: Self)
        ensures
            entry@ == (EntryView {
                key: key@,
                cache_file: cache_file@,
                date: date as int,
                max_age: max_age as int,
                filename: filename@,
            }),
    {
        CacheEntry {
            key: String::from_str(key),
            cache_file: String::from_str(cache_file),
            date,
            max_age,
            filename: String::from_str(filename),
        }
    }

    /// An entry written now. The date is whatever the clock says, so all that
    /// is known of the result is what was passed in.
    pub fn new(key: &str, cache_file: &str, max_age: i64, filename: &str) -> (entry: Self)
        ensures
            entry@.key == key@,
            entry@.cache_file == cache_file@,
            entry@.max_age == max_age,
            entry@.filename == filename@,
    {
        let now = unix_time();
        Self::with_date(key, cache_file, max_age, filename, now)
    }

    /// Whether the entry is expired at `now`.
    pub fn is_expired(&self, now: i64) -> (expired: bool)
        ensures
            expired == self@.expired_at(now as int),
    {
        now as i128 - self.date as i128 > self.max_age as i128
    }

    /// The file name to give a copy of the cached body, if one was recorded.
    pub fn suggested_name(&self) -> (name: Option<&str>)
        ensures
            name matches Some(n) ==> n@ == self@.filename && n@.len() > 0,
            name is None ==> self@.filename.len() == 0,
    {
        let name = self.filename.as_str();
        if name.is_empty() {
            None
        } else {
            Some(name)
        }
    }
}

} // verus!
