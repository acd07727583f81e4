//! The file name that a URL suggests for its body.

use vstd::prelude::*;

verus! {

/// The path of `url` cut into segments: what `Url::parse` of reqwest (the
/// `url` crate's parser) followed by `Url::path_segments` gives, each segment
/// as it stands in the parsed URL (percent-encoded). `None` where the text does
/// not parse as an absolute URL or the URL cannot be a base and so has no
/// segments.
pub uninterp spec fn url_path_segments(url: Seq<char>) -> Option<Seq<Seq<char>>>;

/// Parses `url` and collects its path segments.
///
/// The result is a function of the text alone; it is known to the proofs only
/// by the name [`url_path_segments`].
#[verifier::external_body]
fn path_segments(url: &str) -> (segments: Option<Vec<String>>)
    ensures
        segments.deep_view() == url_path_segments(url@),
{
    let parsed = reqwest::Url::parse(url).ok()?;
    let parts = parsed.path_segments()?;
    Some(parts.map(String::from).collect())
}

/// The name that a list of path segments suggests: the last segment, unless
/// there is none or it is empty.
pub open spec fn suggested_filename(segments: Option<Seq<Seq<char>>>) -> Option<Seq<char>> {
    match segments {
        Some(list) => if list.len() > 0 && list.last().len() > 0 {
            Some(list.last())
        } else {
            None
        },
        None => None,
    }
}

/// The name that the path segments of a URL suggest for a file holding its
/// body.
pub fn filename_from_segments(segments: &Option<Vec<String>>) -> (name: Option<String>)
    ensures
        name.deep_view() == suggested_filename(segments.deep_view()),
{
    match segments {
        Some(list) => {
            let n: usize = list.len();
            if n == 0 {
                None
            } else {
                let last = &list[n - 1];
                if last.as_str().is_empty() {
                    None
                } else {
                    Some(last.clone())
                }
            }
        },
        None => None,
    }
}

/// The name that `url` suggests for a file holding its body: its last path
/// segment, where it has one that is not empty.
pub fn filename_from_url(url: &str) -> (name: Option<String>)
    ensures
        name.deep_view() == suggested_filename(url_path_segments(url@)),
{
    let segments = path_segments(url);
    filename_from_segments(&segments)
}

} // verus!
