//! The name of the file in which a comic's image is stored.

use vstd::prelude::*;
use crate::model::{Comic, ComicError};

verus! {

/// The path segments that the `url` crate finds in the address `url`, in
/// their order; `None` where the address does not parse or is one that cannot
/// be a base and so has no segments.
pub uninterp spec fn url_path_segments(url: Seq<char>) -> Option<Seq<Seq<char>>>;

/// What each string of `v` holds.
pub open spec fn segment_texts(v: Seq<String>) -> Seq<Seq<char>> {
    Seq::new(v.len(), |i: int| v[i]@)
}

/// The file name that a list of path segments gives: the last segment, where
/// there is one and it is not empty.
pub open spec fn file_name_of(segments: Option<Seq<Seq<char>>>) -> Option<Seq<char>> {
    match segments {
        Some(s) => if s.len() > 0 && s.last().len() > 0 {
            Some(s.last())
        } else {
            None
        },
        None => None,
    }
}

/// The parse error of `url`, of which nothing is read.
#[verifier::external_type_specification]
#[verifier::external_body]
pub struct ExUrlParseError(url::ParseError);

/// `url::Url::parse` followed by `url::Url::path_segments` on the parsed
/// address, the segments copied into strings. Trusted: the outcome depends
/// on the text of the address alone; an address that does not parse comes
/// back as the crate's error, one without segments as `Ok(None)`.
#[verifier::external_body]
fn split_url_path(url: &str) -> (r: Result<Option<Vec<String>>, url::ParseError>)
    ensures
        r matches Ok(Some(v)) ==> url_path_segments(url@) == Some(segment_texts(v@)),
        !(r matches Ok(Some(_))) ==> url_path_segments(url@) is None,
{
    let parsed = url::Url::parse(url)?;
    Ok(parsed.path_segments().map(|parts| parts.map(String::from).collect()))
}

/// The file name that the path segments of an address give, or `Path` where
/// they give none: there are no segments, or the last one is empty.
pub fn file_name_from_segments(segments: Option<Vec<String>>) -> (r: Result<String, ComicError>)
    ensures
        match file_name_of(
            match segments {
                Some(v) => Some(segment_texts(v@)),
                None => None,
            },
        ) {
            Some(name) => r matches Ok(s) && s@ == name,
            None => r == Err::<String, ComicError>(ComicError::Path),
        },
{
    match segments {
        Some(v) => {
            let n: usize = v.len();
            if n == 0 {
                return Err(ComicError::Path);
            }
            let last = &v[n - 1];
            assert(segment_texts(v@).last() == last@);
            if last.as_str().is_empty() {
                Err(ComicError::Path)
            } else {
                Ok(last.clone())
            }
        },
        None => Err(ComicError::Path),
    }
}

impl Comic {
    /// The name under which the image is stored: the last path segment of
    /// the image address. `Path` where the address gives no file name: it does
    /// not parse, has no path segments, or its path ends in an empty segment.
    pub fn image_file_name(&self) -> (r: Result<String, ComicError>)
        ensures
            match file_name_of(url_path_segments(self.img_url@)) {
                Some(name) => r matches Ok(s) && s@ == name,
                None => r == Err::<String, ComicError>(ComicError::Path),
            },
    {
        match split_url_path(self.img_url.as_str()) {
            Ok(segments) => file_name_from_segments(segments),
            Err(_) => Err(ComicError::Path),
        }
    }
}

} // verus!
