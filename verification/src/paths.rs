//! Paths and their parts, on a Unix host: the agent runs on no other.

use std::path::Path;
use vstd::prelude::*;

verus! {

/// What `Path::file_name` gives for the path, as text.
pub uninterp spec fn file_name_of(path: Seq<char>) -> Option<Seq<char>>;

/// What `Path::parent` gives for the path, as text.
pub uninterp spec fn parent_of(path: Seq<char>) -> Option<Seq<char>>;

/// What `Path::with_extension` gives for the path, as text.
pub uninterp spec fn extended(path: Seq<char>, extension: Seq<char>) -> Seq<char>;

/// What an optional string holds.
pub open spec fn text_in(text: Option<String>) -> Option<Seq<char>> {
    match text {
        Some(t) => Some(t@),
        None => None,
    }
}

/// Calls `std::path::Path::file_name`. The result depends on the path alone.
#[verifier::external_body]
pub(crate) fn file_name(path: &str) -> (r: Option<String>)
    ensures
        text_in(r) == file_name_of(path@),
{
    Path::new(path).file_name().map(|name| name.to_string_lossy().to_string())
}

/// Calls `std::path::Path::parent`. The result depends on the path alone.
#[verifier::external_body]
pub(crate) fn parent(path: &str) -> (r: Option<String>)
    ensures
        text_in(r) == parent_of(path@),
{
    Path::new(path).parent().map(|parent| parent.to_string_lossy().to_string())
}

/// Calls `std::path::Path::with_extension`. The result depends on the path and the
/// extension alone. The function panics where the extension holds a path
/// separator.
#[verifier::external_body]
pub(crate) fn with_extension(path: &str, extension: &str) -> (r: String)
    requires
        !extension@.contains('/'),
    ensures
        r@ == extended(path@, extension@),
{
    Path::new(path).with_extension(extension).to_string_lossy().to_string()
}

} // verus!
