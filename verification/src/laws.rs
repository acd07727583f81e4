//! What holds of the cache whatever it is asked: laws that relate several
//! operations, proved from the definitions that the operations' contracts
//! use.

use vstd::prelude::*;
use crate::cache::filed_by_key;
use crate::downloader::fresh_entry;
use crate::downloader::index_after_lookup;
use crate::downloader::loaded_index;
use crate::downloader::lookup;
use crate::downloader::name_or_default;
use crate::downloader::LookupView;
use crate::entry::EntryView;
use crate::file::file_step;
use crate::file::CopyOutcomeView;
use crate::file::FileActionView;
use crate::file::FileEventView;
use crate::file::FileResponseView;
use crate::file::FileStateView;
use crate::file::FileStep;
use crate::file::Progress;
use crate::file::CHUNK_SIZE;
use crate::file::FILE_MAX_AGE;
use crate::filename::suggested_filename;
use crate::filename::url_path_segments;
use crate::key::is_normal;
use crate::key::lemma_normalized_ignores_trailing_slashes;
use crate::key::lemma_normalized_is_trimmed_prefix;
use crate::key::normalized;
use crate::key::slashes;
use crate::text::text_step;
use crate::text::TextActionView;
use crate::text::TextEventView;
use crate::text::TextResponseView;
use crate::text::TextStateView;
use crate::text::TEXT_MAX_AGE;

verus! {

/// Slashes at the end of a URL make no difference to the cache: with or
/// without them a lookup finds the same, an insertion files under the same
/// key, and the same entry is evicted.
pub proof fn law_trailing_slashes_name_the_same_entry(
    index: Map<Seq<char>, EntryView>,
    url: Seq<char>,
    n: nat,
    cache_file: Seq<char>,
    max_age: int,
    filename: Seq<char>,
    now: int,
)
    ensures
        normalized(url + slashes(n)) == normalized(url),
        lookup(index, url + slashes(n), now) == lookup(index, url, now),
        index_after_lookup(index, url + slashes(n), now) == index_after_lookup(index, url, now),
        fresh_entry(url + slashes(n), cache_file, max_age, filename, now) == fresh_entry(
            url,
            cache_file,
            max_age,
            filename,
            now,
        ),
{
    lemma_normalized_ignores_trailing_slashes(url, n);
}

/// An entry that was just registered is found: a lookup of the same URL, at
/// any time at which the entry's age does not exceed its maximum, is a hit
/// that hands out what was registered.
pub proof fn law_registered_entry_is_found(
    index: Map<Seq<char>, EntryView>,
    url: Seq<char>,
    cache_file: Seq<char>,
    max_age: int,
    filename: Seq<char>,
    now: int,
    later: int,
)
    requires
        later - now <= max_age,
    ensures
        ({
            let entry = fresh_entry(url, cache_file, max_age, filename, now);
            let registered = index.insert(normalized(url), entry);
            &&& lookup(registered, url, later) == LookupView::Hit(entry)
            &&& index_after_lookup(registered, url, later) == registered
        }),
{
}

/// An entry whose date plus maximum age lies in the past is never handed out:
/// the lookup reports it as expired and takes it out of the index, so that
/// every later lookup of the URL is a miss.
pub proof fn law_expired_entry_is_evicted(
    index: Map<Seq<char>, EntryView>,
    url: Seq<char>,
    now: int,
    later: int,
)
    requires
        index.contains_key(normalized(url)),
        index[normalized(url)].date + index[normalized(url)].max_age < now,
    ensures
        lookup(index, url, now) == LookupView::Expired(index[normalized(url)]),
        !index_after_lookup(index, url, now).contains_key(normalized(url)),
        lookup(index_after_lookup(index, url, now), url, later) == LookupView::Miss,
{
}

/// A lookup changes nothing but the entry it finds expired: every other key
/// keeps its entry.
pub proof fn law_lookup_leaves_other_entries(
    index: Map<Seq<char>, EntryView>,
    url: Seq<char>,
    now: int,
    other: Seq<char>,
)
    requires
        other != normalized(url),
    ensures
        index_after_lookup(index, url, now).contains_key(other) == index.contains_key(other),
        index.contains_key(other) ==> index_after_lookup(index, url, now)[other] == index[other],
{
}

/// Every key of the index is a normalized URL.
pub open spec fn keys_normal(index: Map<Seq<char>, EntryView>) -> bool {
    forall|k: Seq<char>| #[trigger] index.contains_key(k) ==> is_normal(k)
}

/// An index whose keys are normalized URLs, each entry under its own key,
/// stays so whatever is looked up, registered or fetched.
pub proof fn law_keys_stay_normal(
    index: Map<Seq<char>, EntryView>,
    url: Seq<char>,
    cache_file: Seq<char>,
    max_age: int,
    filename: Seq<char>,
    text_state: TextStateView,
    text_event: TextEventView,
    file_state: FileStateView,
    file_event: FileEventView,
    now: int,
)
    requires
        keys_normal(index),
        filed_by_key(index),
    ensures
        keys_normal(index_after_lookup(index, url, now)),
        filed_by_key(index_after_lookup(index, url, now)),
        keys_normal(index.insert(normalized(url), fresh_entry(url, cache_file, max_age, filename, now))),
        filed_by_key(index.insert(normalized(url), fresh_entry(url, cache_file, max_age, filename, now))),
        keys_normal(index.remove(normalized(url))),
        filed_by_key(index.remove(normalized(url))),
        keys_normal(text_step(index, url, text_state, text_event, now).index),
        filed_by_key(text_step(index, url, text_state, text_event, now).index),
        keys_normal(file_step(index, url, file_state, file_event, now).index),
        filed_by_key(file_step(index, url, file_state, file_event, now).index),
{
    lemma_normalized_is_trimmed_prefix(url);
}

/// Where the stored index could not be read, the index starts empty, and
/// every lookup is a miss.
pub proof fn law_unreadable_index_is_empty(url: Seq<char>, now: int)
    ensures
        loaded_index(None) == Map::<Seq<char>, EntryView>::empty(),
        lookup(loaded_index(None), url, now) == LookupView::Miss,
{
}

/// A text whose cached file has gone missing is fetched anew and cached
/// again. From a hit, the failed read evicts the entry and asks for a live
/// request; the response is stored; and once it is stored the text is handed
/// out, the index is to be written, and a lookup finds the new file.
pub proof fn law_missing_text_is_fetched_again(
    index: Map<Seq<char>, EntryView>,
    url: Seq<char>,
    response: TextResponseView,
    file: Seq<char>,
    now: int,
)
    requires
        lookup(index, url, now) is Hit,
    ensures
        ({
            let key = normalized(url);
            let begun = text_step(index, url, TextStateView::Start, TextEventView::Begin, now);
            let unread = text_step(begun.index, url, begun.state, TextEventView::CacheRead(None), now);
            let answered = text_step(
                unread.index,
                url,
                unread.state,
                TextEventView::Response(Some(response)),
                now,
            );
            let stored = text_step(
                answered.index,
                url,
                answered.state,
                TextEventView::Stored(Some(file)),
                now,
            );
            let entry = fresh_entry(
                url,
                file,
                TEXT_MAX_AGE as int,
                name_or_default(suggested_filename(url_path_segments(response.final_url))),
                now,
            );
            &&& begun.action == TextActionView::ReadCache { file: index[key].cache_file }
            &&& unread.action == TextActionView::Fetch {
                discard: Some(index[key].cache_file),
                persist: false,
            }
            &&& !unread.index.contains_key(key)
            &&& answered.action == TextActionView::Store { body: response.body }
            &&& stored.action == TextActionView::Finish {
                result: Ok(response.body),
                discard: None,
                persist: true,
            }
            &&& stored.state == TextStateView::Done
            &&& lookup(stored.index, url, now) == LookupView::Hit(entry)
        }),
{
}

/// A body that arrived is handed out whether or not it could be stored.
pub proof fn law_text_survives_failed_store(
    index: Map<Seq<char>, EntryView>,
    url: Seq<char>,
    response: TextResponseView,
    stored: Option<Seq<char>>,
    now: int,
)
    ensures
        ({
            let answered = text_step(
                index,
                url,
                TextStateView::Fetching,
                TextEventView::Response(Some(response)),
                now,
            );
            let ended = text_step(answered.index, url, answered.state, TextEventView::Stored(stored), now);
            &&& ended.state == TextStateView::Done
            &&& ended.action matches TextActionView::Finish { result, .. } && result == Ok::<
                Seq<char>,
                Seq<char>,
            >(response.body)
            &&& stored is None ==> ended.index == index
        }),
{
}

/// The number of bytes in the first `n` of `chunks`.
pub open spec fn received(chunks: Seq<usize>, n: int) -> int
    decreases n,
{
    if n <= 0 {
        0
    } else {
        received(chunks, n - 1) + chunks[n - 1]
    }
}

/// The event that reports each of `chunks` in turn.
pub open spec fn chunk_events(chunks: Seq<usize>) -> Seq<FileEventView> {
    Seq::new(chunks.len(), |i: int| FileEventView::Chunk(Some(chunks[i])))
}

/// The steps that a fetch takes when, starting from `state` with the index
/// `index`, it is told `events` one after the other.
pub open spec fn file_run(
    index: Map<Seq<char>, EntryView>,
    url: Seq<char>,
    state: FileStateView,
    events: Seq<FileEventView>,
    now: int,
) -> Seq<FileStep>
    decreases events.len(),
{
    if events.len() == 0 {
        Seq::empty()
    } else {
        let before = file_run(index, url, state, events.drop_last(), now);
        let step = if before.len() == 0 {
            file_step(index, url, state, events.last(), now)
        } else {
            file_step(before.last().index, url, before.last().state, events.last(), now)
        };
        before.push(step)
    }
}

/// With chunks that are not empty, more chunks are more bytes.
pub proof fn lemma_received_grows(chunks: Seq<usize>, i: int, j: int)
    requires
        0 <= i < j <= chunks.len(),
        forall|k: int| 0 <= k < chunks.len() ==> chunks[k] > 0,
    ensures
        0 <= received(chunks, i) < received(chunks, j),
    decreases j,
{
    if i > 0 {
        lemma_received_grows(chunks, i - 1, i);
    }
    if j > i + 1 {
        lemma_received_grows(chunks, i, j - 1);
    }
}

/// While a body of known length arrives in pieces, each piece is followed by
/// exactly one report, of the bytes received up to and including it. The
/// numbers reported grow from report to report, so the last one, the length
/// of the body, is reported once; and the end of the body, which follows it,
/// hands the file over without a report.
pub proof fn law_progress_reports(
    index: Map<Seq<char>, EntryView>,
    url: Seq<char>,
    file: Seq<char>,
    length: u64,
    filename: Option<Seq<char>>,
    chunks: Seq<usize>,
    now: int,
)
    requires
        chunks.len() > 0,
        forall|k: int| 0 <= k < chunks.len() ==> chunks[k] > 0,
        received(chunks, chunks.len() as int) == length,
    ensures
        ({
            let start = FileStateView::Receiving { file, transferred: 0, total: Some(length), filename };
            let steps = file_run(index, url, start, chunk_events(chunks), now);
            let end = file_step(
                steps.last().index,
                url,
                steps.last().state,
                FileEventView::Chunk(Some(0)),
                now,
            );
            &&& steps.len() == chunks.len()
            &&& forall|i: int|
                0 <= i < steps.len() ==> (#[trigger] steps[i]).action == (FileActionView::ReadChunk {
                    limit: CHUNK_SIZE,
                    report: Some(
                        Progress { transferred: received(chunks, i + 1) as u64, total: Some(length) },
                    ),
                })
            &&& forall|i: int, j: int|
                0 <= i < j < steps.len() ==> #[trigger] received(chunks, i + 1) < #[trigger] received(
                    chunks,
                    j + 1,
                )
            &&& forall|i: int|
                0 <= i < steps.len() - 1 ==> 0 < #[trigger] received(chunks, i + 1) < length
            &&& received(chunks, steps.len() as int) == length
            &&& end.action is Deliver
            &&& end.state == FileStateView::Delivering
        }),
{
    let start = FileStateView::Receiving { file, transferred: 0, total: Some(length), filename };
    lemma_receiving(index, url, file, length, filename, chunks, chunks.len() as int, now);
    assert(chunk_events(chunks).take(chunks.len() as int) =~= chunk_events(chunks));
    let steps = file_run(index, url, start, chunk_events(chunks), now);
    assert forall|i: int, j: int| 0 <= i < j < steps.len() implies #[trigger] received(chunks, i + 1)
        < #[trigger] received(chunks, j + 1) by {
        lemma_received_grows(chunks, i + 1, j + 1);
    }
    assert forall|i: int| 0 <= i < steps.len() - 1 implies 0 < #[trigger] received(chunks, i + 1)
        < length by {
        lemma_received_grows(chunks, 0, i + 1);
        lemma_received_grows(chunks, i + 1, chunks.len() as int);
    }
}

/// After the first `n` chunks of a body of known length: one step for each
/// chunk, each with its report, the index untouched and the state up to
/// date.
proof fn lemma_receiving(
    index: Map<Seq<char>, EntryView>,
    url: Seq<char>,
    file: Seq<char>,
    length: u64,
    filename: Option<Seq<char>>,
    chunks: Seq<usize>,
    n: int,
    now: int,
)
    requires
        0 < n <= chunks.len(),
        forall|k: int| 0 <= k < chunks.len() ==> chunks[k] > 0,
        received(chunks, chunks.len() as int) == length,
    ensures
        ({
            let start = FileStateView::Receiving { file, transferred: 0, total: Some(length), filename };
            let steps = file_run(index, url, start, chunk_events(chunks).take(n), now);
            &&& steps.len() == n
            &&& forall|i: int|
                0 <= i < n ==> (#[trigger] steps[i]).action == (FileActionView::ReadChunk {
                    limit: CHUNK_SIZE,
                    report: Some(
                        Progress { transferred: received(chunks, i + 1) as u64, total: Some(length) },
                    ),
                })
            &&& steps.last().index == index
            &&& steps.last().state == (FileStateView::Receiving {
                file,
                transferred: received(chunks, n) as u64,
                total: Some(length),
                filename,
            })
        }),
    decreases n,
{
    let start = FileStateView::Receiving { file, transferred: 0, total: Some(length), filename };
    let events = chunk_events(chunks).take(n);
    assert(events.drop_last() =~= chunk_events(chunks).take(n - 1));
    assert(events.last() == FileEventView::Chunk(Some(chunks[n - 1])));
    if n < chunks.len() {
        lemma_received_grows(chunks, n, chunks.len() as int);
    }
    if n == 1 {
        assert(received(chunks, 0) == 0);
        assert(file_run(index, url, start, events.drop_last(), now).len() == 0);
    } else {
        lemma_receiving(index, url, file, length, filename, chunks, n - 1, now);
        lemma_received_grows(chunks, 0, n - 1);
    }
}

/// A file whose cached copy has gone missing is fetched anew and cached
/// again. From a hit, the copy that finds no source evicts the entry and asks
/// for a live request; the body is received, registered for thirty days and
/// copied out; and a lookup then finds the new file.
pub proof fn law_missing_file_is_fetched_again(
    index: Map<Seq<char>, EntryView>,
    url: Seq<char>,
    response: FileResponseView,
    file: Seq<char>,
    chunk: usize,
    path: Seq<char>,
    now: int,
)
    requires
        lookup(index, url, now) is Hit,
        chunk > 0,
    ensures
        ({
            let key = normalized(url);
            let name = suggested_filename(url_path_segments(response.final_url));
            let begun = file_step(index, url, FileStateView::Start, FileEventView::Begin, now);
            let missed = file_step(
                begun.index,
                url,
                begun.state,
                FileEventView::CopyEnded(CopyOutcomeView::SourceMissing),
                now,
            );
            let answered = file_step(
                missed.index,
                url,
                missed.state,
                FileEventView::Response(Some(response)),
                now,
            );
            let opened = file_step(answered.index, url, answered.state, FileEventView::Opened(Some(file)), now);
            let taken = file_step(opened.index, url, opened.state, FileEventView::Chunk(Some(chunk)), now);
            let ended = file_step(taken.index, url, taken.state, FileEventView::Chunk(Some(0)), now);
            let copied = file_step(
                ended.index,
                url,
                ended.state,
                FileEventView::CopyEnded(CopyOutcomeView::Copied(path)),
                now,
            );
            let entry = fresh_entry(url, file, FILE_MAX_AGE as int, name_or_default(name), now);
            &&& begun.action is CopyCached
            &&& missed.action == FileActionView::Fetch {
                discard: Some(index[key].cache_file),
                persist: false,
            }
            &&& !missed.index.contains_key(key)
            &&& answered.action == FileActionView::OpenTemp
            &&& opened.action == FileActionView::ReadChunk { limit: CHUNK_SIZE, report: None }
            &&& taken.action == FileActionView::ReadChunk {
                limit: CHUNK_SIZE,
                report: Some(Progress { transferred: chunk as u64, total: response.content_length }),
            }
            &&& ended.action == FileActionView::Deliver { file, name, discard: None }
            &&& copied.action == FileActionView::Finish { result: Ok(path), discard: None }
            &&& copied.state == FileStateView::Done
            &&& lookup(copied.index, url, now) == LookupView::Hit(entry)
        }),
{
}

/// A length that the server did not declare is reported as unknown, never
/// guessed: every report of such a body carries no total, and the bytes
/// received so far are the bytes reported before plus the piece just taken.
pub proof fn law_undeclared_length_is_reported_unknown(
    index: Map<Seq<char>, EntryView>,
    url: Seq<char>,
    final_url: Seq<char>,
    file: Seq<char>,
    transferred: u64,
    chunk: usize,
    now: int,
)
    requires
        chunk > 0,
        transferred + chunk <= u64::MAX,
    ensures
        ({
            let response = FileResponseView { final_url, content_length: None };
            let answered = file_step(
                index,
                url,
                FileStateView::Requesting,
                FileEventView::Response(Some(response)),
                now,
            );
            let opened = file_step(answered.index, url, answered.state, FileEventView::Opened(Some(file)), now);
            let filename = suggested_filename(url_path_segments(final_url));
            let receiving = FileStateView::Receiving { file, transferred, total: None, filename };
            let taken = file_step(index, url, receiving, FileEventView::Chunk(Some(chunk)), now);
            &&& opened.state == FileStateView::Receiving { file, transferred: 0, total: None, filename }
            &&& taken.action == FileActionView::ReadChunk {
                limit: CHUNK_SIZE,
                report: Some(Progress { transferred: (transferred + chunk) as u64, total: None }),
            }
            &&& taken.state == FileStateView::Receiving {
                file,
                transferred: (transferred + chunk) as u64,
                total: None,
                filename,
            }
        }),
{
}

/// A valid entry is served from the cache: the first thing asked for is the
/// cached file, not a request, and the index stays as it is.
pub proof fn law_hit_asks_for_no_request(index: Map<Seq<char>, EntryView>, url: Seq<char>, now: int)
    requires
        lookup(index, url, now) is Hit,
    ensures
        text_step(index, url, TextStateView::Start, TextEventView::Begin, now).action is ReadCache,
        text_step(index, url, TextStateView::Start, TextEventView::Begin, now).index == index,
        file_step(index, url, FileStateView::Start, FileEventView::Begin, now).action is CopyCached,
        file_step(index, url, FileStateView::Start, FileEventView::Begin, now).index == index,
{
}

} // verus!
