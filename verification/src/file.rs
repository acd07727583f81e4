//! Fetching a URL into a file through the cache, one decision at a time, with
//! progress reported while the body arrives.
//!
//! The caller starts at [`FileState::Start`] with [`FileEvent::Begin`],
//! performs the action it is handed, and reports what came of it with the next
//! event, until it is handed [`FileAction::Finish`].

use vstd::prelude::*;
use crate::clock::unix_time;
use crate::downloader::backing_file;
use crate::downloader::fresh_entry;
use crate::downloader::lookup;
use crate::downloader::name_or_default;
use crate::downloader::orphaned_file;
use crate::downloader::Downloader;
use crate::downloader::Lookup;
use crate::downloader::LookupView;
use crate::entry::EntryView;
use crate::error::outcome_view;
use crate::error::Error;
use crate::error::FETCH_FAILED;
use crate::filename::suggested_filename;
use crate::filename::url_path_segments;
use crate::key::normalized;

verus! {

/// How long a file fetched through the cache stays valid, in seconds: thirty
/// days.
pub const FILE_MAX_AGE: i64 = 30 * 24 * 3600;

/// The largest number of bytes to take from the response in one piece.
pub const CHUNK_SIZE: usize = 65536;

/// What the name of a file that holds a cached download starts with.
pub const FILE_PREFIX: &'static str = "download_";

/// How much of a body has arrived.
#[derive(Debug, Clone, Copy, PartialEq, Eq)]
pub struct Progress {
    /// The number of bytes received so far.
    pub transferred: u64,
    /// The length that the server declared, `None` where it declared none.
    pub total: Option<u64>,
}

/// A successful response to a live request for a file, before its body is
/// read.
#[derive(Debug, PartialEq, Eq)]
pub struct FileResponse {
    /// The URL that finally answered, after redirects.
    pub final_url: String,
    /// The length of the body that the server declared, if it declared one.
    pub content_length: Option<u64>,
}

/// The mathematical value of a [`FileResponse`].
pub struct FileResponseView {
    pub final_url: Seq<char>,
    pub content_length: Option<u64>,
}

impl View for FileResponse {
    type V = FileResponseView;

    open spec fn view(&self) -> FileResponseView {
        FileResponseView { final_url: self.final_url@, content_length: self.content_length }
    }
}

/// How an attempt to copy a cached file to the destination directory ended.
#[derive(Debug, PartialEq, Eq)]
pub enum CopyOutcome {
    /// The copy was made; this is its path.
    Copied(String),
    /// The cached file is not there.
    SourceMissing,
    /// The copy could not be made for another reason.
    Failed,
}

/// The mathematical value of a [`CopyOutcome`].
pub enum CopyOutcomeView {
    Copied(Seq<char>),
    SourceMissing,
    Failed,
}

impl View for CopyOutcome {
    type V = CopyOutcomeView;

    open spec fn view(&self) -> CopyOutcomeView {
        match self {
            CopyOutcome::Copied(path) => CopyOutcomeView::Copied(path@),
            CopyOutcome::SourceMissing => CopyOutcomeView::SourceMissing,
            CopyOutcome::Failed => CopyOutcomeView::Failed,
        }
    }
}

/// How far a fetch into a file has come.
#[derive(Debug, PartialEq, Eq)]
pub enum FileState {
    /// Nothing has been done yet.
    Start,
    /// The cached file is being copied to the destination directory.
    Copying,
    /// The live request is under way.
    Requesting,
    /// The response has come and a new file is being created in the cache
    /// directory to take its body.
    Opening {
        /// The length that the server declared.
        total: Option<u64>,
        /// The file name that the final URL suggests.
        filename: Option<String>,
    },
    /// The body is arriving.
    Receiving {
        /// Name of the file in the cache directory that takes the body.
        file: String,
        /// The number of bytes received and written so far.
        transferred: u64,
        /// The length that the server declared.
        total: Option<u64>,
        /// The file name that the final URL suggests.
        filename: Option<String>,
    },
    /// The body is registered in the cache and is being copied to the
    /// destination directory.
    Delivering,
    /// The fetch has ended.
    Done,
}

/// The mathematical value of a [`FileState`].
pub enum FileStateView {
    Start,
    Copying,
    Requesting,
    Opening { total: Option<u64>, filename: Option<Seq<char>> },
    Receiving { file: Seq<char>, transferred: u64, total: Option<u64>, filename: Option<Seq<char>> },
    Delivering,
    Done,
}

impl View for FileState {
    type V = FileStateView;

    open spec fn view(&self) -> FileStateView {
        match self {
            FileState::Start => FileStateView::Start,
            FileState::Copying => FileStateView::Copying,
            FileState::Requesting => FileStateView::Requesting,
            FileState::Opening { total, filename } => FileStateView::Opening {
                total: *total,
                filename: filename.deep_view(),
            },
            FileState::Receiving { file, transferred, total, filename } => FileStateView::Receiving {
                file: file@,
                transferred: *transferred,
                total: *total,
                filename: filename.deep_view(),
            },
            FileState::Delivering => FileStateView::Delivering,
            FileState::Done => FileStateView::Done,
        }
    }
}

/// What the caller reports to the manager.
#[derive(Debug, PartialEq, Eq)]
pub enum FileEvent {
    /// The fetch is asked for.
    Begin,
    /// A copy to the destination directory ended.
    CopyEnded(CopyOutcome),
    /// The live request ended: with a response whose body is yet to be read,
    /// or with nothing where the transport failed or the status was not a
    /// success.
    Response(Option<FileResponse>),
    /// Creating the file for the body ended: with its name in the cache
    /// directory, or with nothing where it could not be created.
    Opened(Option<String>),
    /// Taking one piece of the body ended: with the number of bytes read and
    /// written to the file, 0 at the end of the body, or with nothing where
    /// reading or writing failed.
    Chunk(Option<usize>),
}

/// The mathematical value of a [`FileEvent`].
pub enum FileEventView {
    Begin,
    CopyEnded(CopyOutcomeView),
    Response(Option<FileResponseView>),
    Opened(Option<Seq<char>>),
    Chunk(Option<usize>),
}

impl View for FileEvent {
    type V = FileEventView;

    open spec fn view(&self) -> FileEventView {
        match self {
            FileEvent::Begin => FileEventView::Begin,
            FileEvent::CopyEnded(outcome) => FileEventView::CopyEnded(outcome@),
            FileEvent::Response(response) => FileEventView::Response(
                match response {
                    Some(r) => Some(r@),
                    None => None,
                },
            ),
            FileEvent::Opened(file) => FileEventView::Opened(file.deep_view()),
            FileEvent::Chunk(read) => FileEventView::Chunk(*read),
        }
    }
}

/// What the manager asks the caller to do next.
#[derive(Debug, PartialEq, Eq)]
pub enum FileAction {
    /// Copy the file `file` of the cache directory into the destination
    /// directory, under `name` or, where none is given, under a new unique
    /// name, and report with [`FileEvent::CopyEnded`].
    CopyCached { file: String, name: Option<String> },
    /// Delete the file `discard` of the cache directory, if one is named and
    /// it is there; write the index if `persist` is set; then request the URL
    /// and report with [`FileEvent::Response`].
    Fetch { discard: Option<String>, persist: bool },
    /// Create a new, uniquely named file in the cache directory and report
    /// with [`FileEvent::Opened`].
    OpenTemp,
    /// Tell the observer of `report`, if there is one; then read at most
    /// `limit` bytes of the body, write them to the file and report with
    /// [`FileEvent::Chunk`].
    ReadChunk { limit: usize, report: Option<Progress> },
    /// The body is complete and registered. Delete the file `discard` of the
    /// cache directory, if one is named; write the index, going on if that
    /// fails; then copy the file `file` of the cache directory into the
    /// destination directory, under `name` or, where none is given, under a
    /// new unique name, and report with [`FileEvent::CopyEnded`].
    Deliver { file: String, name: Option<String>, discard: Option<String> },
    /// Delete the file `discard` of the cache directory, if one is named;
    /// then hand `result`, the path of the file in the destination directory,
    /// to whoever asked for it.
    Finish { result: Result<String, Error>, discard: Option<String> },
    /// The event does not fit the state. Nothing was changed.
    Ignored,
}

/// The mathematical value of a [`FileAction`].
pub enum FileActionView {
    CopyCached { file: Seq<char>, name: Option<Seq<char>> },
    Fetch { discard: Option<Seq<char>>, persist: bool },
    OpenTemp,
    ReadChunk { limit: usize, report: Option<Progress> },
    Deliver { file: Seq<char>, name: Option<Seq<char>>, discard: Option<Seq<char>> },
    Finish { result: Result<Seq<char>, Seq<char>>, discard: Option<Seq<char>> },
    Ignored,
}

impl View for FileAction {
    type V = FileActionView;

    open spec fn view(&self) -> FileActionView {
        match self {
            FileAction::CopyCached { file, name } => FileActionView::CopyCached {
                file: file@,
                name: name.deep_view(),
            },
            FileAction::Fetch { discard, persist } => FileActionView::Fetch {
                discard: discard.deep_view(),
                persist: *persist,
            },
            FileAction::OpenTemp => FileActionView::OpenTemp,
            FileAction::ReadChunk { limit, report } => FileActionView::ReadChunk {
                limit: *limit,
                report: *report,
            },
            FileAction::Deliver { file, name, discard } => FileActionView::Deliver {
                file: file@,
                name: name.deep_view(),
                discard: discard.deep_view(),
            },
            FileAction::Finish { result, discard } => FileActionView::Finish {
                result: outcome_view(*result),
                discard: discard.deep_view(),
            },
            FileAction::Ignored => FileActionView::Ignored,
        }
    }
}

/// One step of a fetch: the index, the state and the action that follow.
pub struct FileStep {
    pub index: Map<Seq<char>, EntryView>,
    pub state: FileStateView,
    pub action: FileActionView,
}

/// The name under which to copy out a cached body: the one recorded with it,
/// unless that is empty.
pub open spec fn copy_name(recorded: Seq<char>) -> Option<Seq<char>> {
    if recorded.len() > 0 {
        Some(recorded)
    } else {
        None
    }
}

/// The step that ends a fetch in failure.
pub open spec fn failed(index: Map<Seq<char>, EntryView>, discard: Option<Seq<char>>) -> FileStep {
    FileStep {
        index,
        state: FileStateView::Done,
        action: FileActionView::Finish { result: Err(FETCH_FAILED@), discard },
    }
}

/// What the manager decides when, fetching `url` into a file in state
/// `state`, it is told `event` at time `now`.
pub open spec fn file_step(
    index: Map<Seq<char>, EntryView>,
    url: Seq<char>,
    state: FileStateView,
    event: FileEventView,
    now: int,
) -> FileStep {
    let key = normalized(url);
    match (state, event) {
        (FileStateView::Start, FileEventView::Begin) => match lookup(index, url, now) {
            LookupView::Hit(entry) => FileStep {
                index,
                state: FileStateView::Copying,
                action: FileActionView::CopyCached {
                    file: entry.cache_file,
                    name: copy_name(entry.filename),
                },
            },
            LookupView::Expired(entry) => FileStep {
                index: index.remove(key),
                state: FileStateView::Requesting,
                action: FileActionView::Fetch { discard: Some(entry.cache_file), persist: true },
            },
            LookupView::Miss => FileStep {
                index,
                state: FileStateView::Requesting,
                action: FileActionView::Fetch { discard: None, persist: false },
            },
        },
        (FileStateView::Copying, FileEventView::CopyEnded(CopyOutcomeView::Copied(path))) => FileStep {
            index,
            state: FileStateView::Done,
            action: FileActionView::Finish { result: Ok(path), discard: None },
        },
        (FileStateView::Copying, FileEventView::CopyEnded(CopyOutcomeView::SourceMissing)) => FileStep {
            index: index.remove(key),
            state: FileStateView::Requesting,
            action: FileActionView::Fetch { discard: backing_file(index, key), persist: false },
        },
        (FileStateView::Copying, FileEventView::CopyEnded(CopyOutcomeView::Failed)) => FileStep {
            index,
            state: FileStateView::Requesting,
            action: FileActionView::Fetch { discard: None, persist: false },
        },
        (FileStateView::Requesting, FileEventView::Response(Some(response))) => FileStep {
            index,
            state: FileStateView::Opening {
                total: response.content_length,
                filename: suggested_filename(url_path_segments(response.final_url)),
            },
            action: FileActionView::OpenTemp,
        },
        (FileStateView::Requesting, FileEventView::Response(None)) => failed(index, None),
        (FileStateView::Opening { total, filename }, FileEventView::Opened(Some(file))) => FileStep {
            index,
            state: FileStateView::Receiving { file, transferred: 0, total, filename },
            action: FileActionView::ReadChunk { limit: CHUNK_SIZE, report: None },
        },
        (FileStateView::Opening { total, filename }, FileEventView::Opened(None)) => failed(index, None),
        (
            FileStateView::Receiving { file, transferred, total, filename },
            FileEventView::Chunk(Some(read)),
        ) => if read == 0 {
            FileStep {
                index: index.insert(
                    key,
                    fresh_entry(url, file, FILE_MAX_AGE as int, name_or_default(filename), now),
                ),
                state: FileStateView::Delivering,
                action: FileActionView::Deliver {
                    file,
                    name: filename,
                    discard: orphaned_file(index, key, file),
                },
            }
        } else if transferred + read <= u64::MAX {
            FileStep {
                index,
                state: FileStateView::Receiving {
                    file,
                    transferred: (transferred + read) as u64,
                    total,
                    filename,
                },
                action: FileActionView::ReadChunk {
                    limit: CHUNK_SIZE,
                    report: Some(Progress { transferred: (transferred + read) as u64, total }),
                },
            }
        } else {
            failed(index, Some(file))
        },
        (FileStateView::Receiving { file, transferred, total, filename }, FileEventView::Chunk(None)) => failed(
            index,
            Some(file),
        ),
        (FileStateView::Delivering, FileEventView::CopyEnded(CopyOutcomeView::Copied(path))) => FileStep {
            index,
            state: FileStateView::Done,
            action: FileActionView::Finish { result: Ok(path), discard: None },
        },
        (FileStateView::Delivering, FileEventView::CopyEnded(_)) => failed(index, None),
        _ => FileStep { index, state, action: FileActionView::Ignored },
    }
}

/// The action that ends a fetch in failure.
fn fail(discard: Option<String>) -> (step: (FileState, FileAction))
    ensures
        step.0@ == FileStateView::Done,
        step.1@ == (FileActionView::Finish { result: Err(FETCH_FAILED@), discard: discard.deep_view() }),
{
    (FileState::Done, FileAction::Finish { result: Err(Error::new(FETCH_FAILED)), discard })
}

impl Downloader {
    /// One step of fetching `url` into a file, taken at time `now`.
    ///
    /// A valid entry is copied out of the cache before anything is requested.
    /// An entry that is too old, or whose file is gone, is evicted and the URL
    /// requested anew. While the body arrives, each piece is followed by a
    /// report of the bytes received so far. The complete body is registered in
    /// the cache for thirty days and then copied out; the cache keeps its own
    /// copy. A request, a read, a write or the final copy that fails ends the
    /// fetch with an error.
    pub fn download_at(&mut self, url: &str, state: FileState, event: FileEvent, now: i64) -> (step: (
        FileState,
        FileAction,
    ))
        ensures
            final(self)@ == old(self)@.with_index(
                file_step(old(self)@.index, url@, state@, event@, now as int).index,
            ),
            step.0@ == file_step(old(self)@.index, url@, state@, event@, now as int).state,
            step.1@ == file_step(old(self)@.index, url@, state@, event@, now as int).action,
    {
        match (state, event) {
            (FileState::Start, FileEvent::Begin) => match self.get_cache_entry_at(url, now) {
                Lookup::Hit(entry) => {
                    let name = if entry.filename.as_str().is_empty() {
                        None
                    } else {
                        Some(entry.filename)
                    };
                    (FileState::Copying, FileAction::CopyCached { file: entry.cache_file, name })
                },
                Lookup::Expired(entry) => (
                    FileState::Requesting,
                    FileAction::Fetch { discard: Some(entry.cache_file), persist: true },
                ),
                Lookup::Miss => (
                    FileState::Requesting,
                    FileAction::Fetch { discard: None, persist: false },
                ),
            },
            (FileState::Copying, FileEvent::CopyEnded(CopyOutcome::Copied(path))) => (
                FileState::Done,
                FileAction::Finish { result: Ok(path), discard: None },
            ),
            (FileState::Copying, FileEvent::CopyEnded(CopyOutcome::SourceMissing)) => {
                let discard = self.evict(url);
                (FileState::Requesting, FileAction::Fetch { discard, persist: false })
            },
            (FileState::Copying, FileEvent::CopyEnded(CopyOutcome::Failed)) => (
                FileState::Requesting,
                FileAction::Fetch { discard: None, persist: false },
            ),
            (FileState::Requesting, FileEvent::Response(Some(response))) => {
                let filename = Self::get_filename(response.final_url.as_str());
                (
                    FileState::Opening { total: response.content_length, filename },
                    FileAction::OpenTemp,
                )
            },
            (FileState::Requesting, FileEvent::Response(None)) => fail(None),
            (FileState::Opening { total, filename }, FileEvent::Opened(Some(file))) => (
                FileState::Receiving { file, transferred: 0, total, filename },
                FileAction::ReadChunk { limit: CHUNK_SIZE, report: None },
            ),
            (FileState::Opening { total, filename }, FileEvent::Opened(None)) => fail(None),
            (
                FileState::Receiving { file, transferred, total, filename },
                FileEvent::Chunk(Some(read)),
            ) => {
                if read == 0 {
                    let recorded = Self::recorded_name(&filename);
                    let discard = self.register(
                        url,
                        file.as_str(),
                        FILE_MAX_AGE,
                        recorded.as_str(),
                        now,
                    );
                    (FileState::Delivering, FileAction::Deliver { file, name: filename, discard })
                } else {
                    match transferred.checked_add(read as u64) {
                        Some(sum) => (
                            FileState::Receiving { file, transferred: sum, total, filename },
                            FileAction::ReadChunk {
                                limit: CHUNK_SIZE,
                                report: Some(Progress { transferred: sum, total }),
                            },
                        ),
                        None => fail(Some(file)),
                    }
                }
            },
            (FileState::Receiving { file, transferred, total, filename }, FileEvent::Chunk(None)) => fail(
                Some(file),
            ),
            (FileState::Delivering, FileEvent::CopyEnded(CopyOutcome::Copied(path))) => (
                FileState::Done,
                FileAction::Finish { result: Ok(path), discard: None },
            ),
            (FileState::Delivering, FileEvent::CopyEnded(_)) => fail(None),
            (state, _) => (state, FileAction::Ignored),
        }
    }

    /// One step of fetching `url` into a file, taken now.
    pub fn download(&mut self, url: &str, state: FileState, event: FileEvent) -> (step: (FileState, FileAction))
        ensures
            exists|now: int|
                {
                    &&& final(self)@ == old(self)@.with_index(
                        (#[trigger] file_step(old(self)@.index, url@, state@, event@, now)).index,
                    )
                    &&& step.0@ == file_step(old(self)@.index, url@, state@, event@, now).state
                    &&& step.1@ == file_step(old(self)@.index, url@, state@, event@, now).action
                },
    {
        let now = unix_time();
        self.download_at(url, state, event, now)
    }
}

} // verus!
