//! From the address of a sprite sheet in the tree document to the file that
//! holds its image.

use vstd::prelude::*;
use vstd::string::StringExecFns;

verus! {

/// The directory that holds the sheet images.
pub const RESOURCE_DIR: &'static str = "resources/ggg_assets/";

/// The path segments that the `url` crate finds in a text: what
/// `Url::path_segments` gives for the URL that `Url::parse` reads from it.
/// `None` where the text is no absolute URL, or is one that cannot be a base
/// and so has no segments.
pub uninterp spec fn url_path_segments(url: Seq<char>) -> Option<Seq<Seq<char>>>;

/// The texts of a run of strings.
pub open spec fn texts(strings: Seq<String>) -> Seq<Seq<char>> {
    Seq::new(strings.len(), |i: int| strings[i]@)
}

/// The last of the segments, where there are any.
pub open spec fn last_segment(segments: Option<Seq<Seq<char>>>) -> Option<Seq<char>> {
    match segments {
        Some(s) => if s.len() > 0 {
            Some(s.last())
        } else {
            None
        },
        None => None,
    }
}

/// Calls `url::Url::parse` and then `Url::path_segments`, and hands the
/// segments out as strings. Not proved: that the result is the named one.
/// The crate documents that a URL which has segments has at least one,
/// possibly empty.
#[verifier::external_body]
fn path_segments(url: &str) -> (r: Option<Vec<String>>)
    ensures
        match r {
            Some(v) => url_path_segments(url@) == Some(texts(v@)) && v@.len() >= 1,
            None => url_path_segments(url@) is None,
        },
{
    match url::Url::parse(url) {
        Ok(parsed) => match parsed.path_segments() {
            Some(parts) => Some(parts.map(|part| part.to_string()).collect()),
            None => None,
        },
        Err(_) => None,
    }
}

/// The last of a run of path segments, or `None` where the run is empty.
pub fn last_of(segments: &Vec<String>) -> (r: Option<String>)
    ensures
        match r {
            Some(name) => last_segment(Some(texts(segments@))) == Some(name@),
            None => segments@.len() == 0,
        },
{
    let n: usize = segments.len();
    if n == 0 {
        None
    } else {
        Some(segments[n - 1].clone())
    }
}

/// The file name that a sheet's address ends in: the last path segment of
/// the URL. `None` where the address is no URL with a path.
pub fn filename_from_url(url: String) -> (r: Option<String>)
    ensures
        match r {
            Some(name) => last_segment(url_path_segments(url@)) == Some(name@),
            None => url_path_segments(url@) is None,
        },
{
    match path_segments(url.as_str()) {
        Some(segments) => last_of(&segments),
        None => None,
    }
}

/// Where the image of a sheet lies on disk.
pub fn sheet_path(filename: &str) -> (r: String)
    ensures
        r@ == RESOURCE_DIR@ + filename@,
{
    String::from_str(RESOURCE_DIR).concat(filename)
}

} // verus!
