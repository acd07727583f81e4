//! Fetching a URL as text through the cache, one decision at a time.
//!
//! The manager decides; the caller acts. The caller starts at
//! [`TextState::Start`] with [`TextEvent::Begin`], performs the action it is
//! handed, and reports what came of it with the next event, until it is handed
//! [`TextAction::Finish`].

use vstd::prelude::*;
use crate::clock::unix_time;
use crate::downloader::backing_file;
use crate::downloader::fresh_entry;
use crate::downloader::lookup;
use crate::downloader::name_or_default;
use crate::downloader::orphaned_file;
use crate::downloader::Downloader;
use crate::downloader::Lookup;
use crate::downloader::LookupView;
use crate::entry::EntryView;
use crate::error::outcome_view;
use crate::error::Error;
use crate::error::FETCH_FAILED;
use crate::filename::suggested_filename;
use crate::filename::url_path_segments;
use crate::key::normalized;

verus! {

/// How long a text fetched through the cache stays valid, in seconds.
pub const TEXT_MAX_AGE: i64 = 3600;

/// What the name of a file that holds a cached text starts with.
pub const TEXT_FILE_PREFIX: &'static str = "c_";

/// What the name of a file that holds a cached text ends in.
pub const TEXT_FILE_SUFFIX: &'static str = ".cache";

/// A successful response to a live request for a text.
#[derive(Debug, PartialEq, Eq)]
pub struct TextResponse {
    /// The URL that finally answered, after redirects.
    pub final_url: String,
    /// The body, in full.
    pub body: String,
}

/// The mathematical value of a [`TextResponse`].
pub struct TextResponseView {
    pub final_url: Seq<char>,
    pub body: Seq<char>,
}

impl View for TextResponse {
    type V = TextResponseView;

    open spec fn view(&self) -> TextResponseView {
        TextResponseView { final_url: self.final_url@, body: self.body@ }
    }
}

/// How far a fetch of a text has come.
#[derive(Debug, PartialEq, Eq)]
pub enum TextState {
    /// Nothing has been done yet.
    Start,
    /// The cached body is being read.
    Reading,
    /// The live request is under way.
    Fetching,
    /// The body has arrived and is being written to a new file in the cache
    /// directory.
    Storing {
        /// The body that arrived.
        body: String,
        /// The file name to record for it.
        filename: String,
    },
    /// The fetch has ended.
    Done,
}

/// The mathematical value of a [`TextState`].
pub enum TextStateView {
    Start,
    Reading,
    Fetching,
    Storing { body: Seq<char>, filename: Seq<char> },
    Done,
}

impl View for TextState {
    type V = TextStateView;

    open spec fn view(&self) -> TextStateView {
        match self {
            TextState::Start => TextStateView::Start,
            TextState::Reading => TextStateView::Reading,
            TextState::Fetching => TextStateView::Fetching,
            TextState::Storing { body, filename } => TextStateView::Storing {
                body: body@,
                filename: filename@,
            },
            TextState::Done => TextStateView::Done,
        }
    }
}

/// What the caller reports to the manager.
#[derive(Debug, PartialEq, Eq)]
pub enum TextEvent {
    /// The fetch is asked for.
    Begin,
    /// Reading the cached file ended: with its text, or with nothing where the
    /// file could not be opened or read.
    CacheRead(Option<String>),
    /// The live request ended: with a response, or with nothing where the
    /// transport failed or the status was not a success.
    Response(Option<TextResponse>),
    /// Writing the body ended: with the name of the new file in the cache
    /// directory, or with nothing where it could not be created or written.
    Stored(Option<String>),
}

/// The mathematical value of a [`TextEvent`].
pub enum TextEventView {
    Begin,
    CacheRead(Option<Seq<char>>),
    Response(Option<TextResponseView>),
    Stored(Option<Seq<char>>),
}

impl View for TextEvent {
    type V = TextEventView;

    open spec fn view(&self) -> TextEventView {
        match self {
            TextEvent::Begin => TextEventView::Begin,
            TextEvent::CacheRead(text) => TextEventView::CacheRead(text.deep_view()),
            TextEvent::Response(response) => TextEventView::Response(
                match response {
                    Some(r) => Some(r@),
                    None => None,
                },
            ),
            TextEvent::Stored(file) => TextEventView::Stored(file.deep_view()),
        }
    }
}

/// What the manager asks the caller to do next.
#[derive(Debug, PartialEq, Eq)]
pub enum TextAction {
    /// Read the file `file` of the cache directory as text and report with
    /// [`TextEvent::CacheRead`].
    ReadCache { file: String },
    /// Delete the file `discard` of the cache directory, if one is named and
    /// it is there; write the index if `persist` is set; then request the URL
    /// and report with [`TextEvent::Response`].
    Fetch { discard: Option<String>, persist: bool },
    /// Write `body` to a new, uniquely named file in the cache directory and
    /// report with [`TextEvent::Stored`].
    Store { body: String },
    /// Delete the file `discard` of the cache directory, if one is named;
    /// write the index if `persist` is set, going on if that fails; then hand
    /// `result` to whoever asked for the text.
    Finish { result: Result<String, Error>, discard: Option<String>, persist: bool },
    /// The event does not fit the state. Nothing was changed.
    Ignored,
}

/// The mathematical value of a [`TextAction`].
pub enum TextActionView {
    ReadCache { file: Seq<char> },
    Fetch { discard: Option<Seq<char>>, persist: bool },
    Store { body: Seq<char> },
    Finish { result: Result<Seq<char>, Seq<char>>, discard: Option<Seq<char>>, persist: bool },
    Ignored,
}

impl View for TextAction {
    type V = TextActionView;

    open spec fn view(&self) -> TextActionView {
        match self {
            TextAction::ReadCache { file } => TextActionView::ReadCache { file: file@ },
            TextAction::Fetch { discard, persist } => TextActionView::Fetch {
                discard: discard.deep_view(),
                persist: *persist,
            },
            TextAction::Store { body } => TextActionView::Store { body: body@ },
            TextAction::Finish { result, discard, persist } => TextActionView::Finish {
                result: outcome_view(*result),
                discard: discard.deep_view(),
                persist: *persist,
            },
            TextAction::Ignored => TextActionView::Ignored,
        }
    }
}

/// One step of a fetch: the index, the state and the action that follow.
pub struct TextStep {
    pub index: Map<Seq<char>, EntryView>,
    pub state: TextStateView,
    pub action: TextActionView,
}

/// What the manager decides when, fetching the text of `url` in state `state`,
/// it is told `event` at time `now`.
pub open spec fn text_step(
    index: Map<Seq<char>, EntryView>,
    url: Seq<char>,
    state: TextStateView,
    event: TextEventView,
    now: int,
) -> TextStep {
    let key = normalized(url);
    match (state, event) {
        (TextStateView::Start, TextEventView::Begin) => match lookup(index, url, now) {
            LookupView::Hit(entry) => TextStep {
                index,
                state: TextStateView::Reading,
                action: TextActionView::ReadCache { file: entry.cache_file },
            },
            LookupView::Expired(entry) => TextStep {
                index: index.remove(key),
                state: TextStateView::Fetching,
                action: TextActionView::Fetch { discard: Some(entry.cache_file), persist: true },
            },
            LookupView::Miss => TextStep {
                index,
                state: TextStateView::Fetching,
                action: TextActionView::Fetch { discard: None, persist: false },
            },
        },
        (TextStateView::Reading, TextEventView::CacheRead(Some(text))) => TextStep {
            index,
            state: TextStateView::Done,
            action: TextActionView::Finish { result: Ok(text), discard: None, persist: false },
        },
        (TextStateView::Reading, TextEventView::CacheRead(None)) => TextStep {
            index: index.remove(key),
            state: TextStateView::Fetching,
            action: TextActionView::Fetch { discard: backing_file(index, key), persist: false },
        },
        (TextStateView::Fetching, TextEventView::Response(Some(response))) => TextStep {
            index,
            state: TextStateView::Storing {
                body: response.body,
                filename: name_or_default(suggested_filename(url_path_segments(response.final_url))),
            },
            action: TextActionView::Store { body: response.body },
        },
        (TextStateView::Fetching, TextEventView::Response(None)) => TextStep {
            index,
            state: TextStateView::Done,
            action: TextActionView::Finish { result: Err(FETCH_FAILED@), discard: None, persist: false },
        },
        (TextStateView::Storing { body, filename }, TextEventView::Stored(Some(file))) => TextStep {
            index: index.insert(key, fresh_entry(url, file, TEXT_MAX_AGE as int, filename, now)),
            state: TextStateView::Done,
            action: TextActionView::Finish {
                result: Ok(body),
                discard: orphaned_file(index, key, file),
                persist: true,
            },
        },
        (TextStateView::Storing { body, filename }, TextEventView::Stored(None)) => TextStep {
            index,
            state: TextStateView::Done,
            action: TextActionView::Finish { result: Ok(body), discard: None, persist: false },
        },
        _ => TextStep { index, state, action: TextActionView::Ignored },
    }
}

impl Downloader {
    /// One step of fetching `url` as text, taken at time `now`.
    ///
    /// A valid entry is read from the cache before anything is requested. An
    /// entry that is too old, or whose file cannot be read, is evicted and the
    /// URL requested anew. A body that arrived is handed out whether or not it
    /// could be stored; only a failed request ends the fetch with an error.
    pub fn download_to_string_at(
        &mut self,
        url: &str,
        state: TextState,
        event: TextEvent,
        now: i64,
    ) -> (step: (TextState, TextAction))
        ensures
            final(self)@ == old(self)@.with_index(
                text_step(old(self)@.index, url@, state@, event@, now as int).index,
            ),
            step.0@ == text_step(old(self)@.index, url@, state@, event@, now as int).state,
            step.1@ == text_step(old(self)@.index, url@, state@, event@, now as int).action,
    {
        match (state, event) {
            (TextState::Start, TextEvent::Begin) => match self.get_cache_entry_at(url, now) {
                Lookup::Hit(entry) => (
                    TextState::Reading,
                    TextAction::ReadCache { file: entry.cache_file },
                ),
                Lookup::Expired(entry) => (
                    TextState::Fetching,
                    TextAction::Fetch { discard: Some(entry.cache_file), persist: true },
                ),
                Lookup::Miss => (
                    TextState::Fetching,
                    TextAction::Fetch { discard: None, persist: false },
                ),
            },
            (TextState::Reading, TextEvent::CacheRead(Some(text))) => (
                TextState::Done,
                TextAction::Finish { result: Ok(text), discard: None, persist: false },
            ),
            (TextState::Reading, TextEvent::CacheRead(None)) => {
                let discard = self.evict(url);
                (TextState::Fetching, TextAction::Fetch { discard, persist: false })
            },
            (TextState::Fetching, TextEvent::Response(Some(response))) => {
                let suggested = Self::get_filename(response.final_url.as_str());
                let filename = Self::recorded_name(&suggested);
                let copy = response.body.clone();
                (
                    TextState::Storing { body: response.body, filename },
                    TextAction::Store { body: copy },
                )
            },
            (TextState::Fetching, TextEvent::Response(None)) => (
                TextState::Done,
                TextAction::Finish {
                    result: Err(Error::new(FETCH_FAILED)),
                    discard: None,
                    persist: false,
                },
            ),
            (TextState::Storing { body, filename }, TextEvent::Stored(Some(file))) => {
                let discard = self.register(
                    url,
                    file.as_str(),
                    TEXT_MAX_AGE,
                    filename.as_str(),
                    now,
                );
                (TextState::Done, TextAction::Finish { result: Ok(body), discard, persist: true })
            },
            (TextState::Storing { body, filename }, TextEvent::Stored(None)) => (
                TextState::Done,
                TextAction::Finish { result: Ok(body), discard: None, persist: false },
            ),
            (state, _) => (state, TextAction::Ignored),
        }
    }

    /// One step of fetching `url` as text, taken now.
    pub fn download_to_string(&mut self, url: &str, state: TextState, event: TextEvent) -> (step: (
        TextState,
        TextAction,
    ))
        ensures
            exists|now: int|
                {
                    &&& final(self)@ == old(self)@.with_index(
                        (#[trigger] text_step(old(self)@.index, url@, state@, event@, now)).index,
                    )
                    &&& step.0@ == text_step(old(self)@.index, url@, state@, event@, now).state
                    &&& step.1@ == text_step(old(self)@.index, url@, state@, event@, now).action
                },
    {
        let now = unix_time();
        self.download_to_string_at(url, state, event, now)
    }
}

} // verus!
