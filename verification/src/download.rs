//! A download request derived from a URL: the URL itself and the file name,
//! which is the last segment of the URL's path. A string that is not an
//! absolute URL, or whose URL cannot carry a path, yields the empty request.

use vstd::prelude::*;

verus! {

/// A file to download: where from, and under what name to store it.
#[derive(Clone, Debug, PartialEq, Eq)]
pub struct Download {
    pub url: String,
    pub file_name: String,
}

/// What parsing a URL yields for the download: nothing when the string is
/// not an absolute URL or the URL cannot carry a path; otherwise the path's
/// segments, split on the slashes. The result depends on the string alone.
pub uninterp spec fn spec_url_path_segments(url: Seq<char>) -> Option<Seq<Seq<char>>>;

/// Relies on url::Url::parse and url::Url::path_segments: parse rejects a
/// string that is not an absolute URL, and path_segments yields the path
/// split on '/' for every URL that can be a base, at least one segment.
#[verifier::external_body]
fn url_path_segments(url: &str) -> (r: Option<Vec<String>>)
    ensures
        r is Some <==> spec_url_path_segments(url@) is Some,
        r matches Some(v) ==> {
            let segs = spec_url_path_segments(url@)->Some_0;
            v@.len() == segs.len() && forall|i: int| 0 <= i < v@.len() ==> v@[i]@ == segs[i]
        },
{
    match url::Url::parse(url) {
        Ok(u) => u.path_segments().map(|segments| segments.map(|s| s.to_string()).collect()),
        Err(_) => None,
    }
}

impl Default for Download {
    fn default() -> (d: Download)
        ensures
            d.url@ == Seq::<char>::empty(),
            d.file_name@ == Seq::<char>::empty(),
    {
        Download { url: String::new(), file_name: String::new() }
    }
}

impl Download {
    /// The download a URL names: the URL itself, stored under its last path
    /// segment. A string that does not parse as a base URL yields the empty
    /// download.
    pub fn from(url: &str) -> (d: Download)
        ensures
            match spec_url_path_segments(url@) {
                Some(segs) => {
                    &&& d.url@ == url@
                    &&& segs.len() > 0 ==> d.file_name@ == segs.last()
                    &&& segs.len() == 0 ==> d.file_name@ == Seq::<char>::empty()
                },
                None => d.url@ == Seq::<char>::empty() && d.file_name@ == Seq::<char>::empty(),
            },
    {
        match url_path_segments(url) {
            Some(segments) => {
                let file_name = if segments.len() > 0 {
                    segments[segments.len() - 1].clone()
                } else {
                    String::new()
                };
                Download { url: url.to_owned(), file_name }
            },
            None => Download::default(),
        }
    }
}

} // verus!
