//! Path syntax. Paths are held as text; taking one apart or putting one
//! together is left to `std::path`, under the rules of the platform the
//! library is built for. Nothing here touches the file system. What
//! `std::path` gives for a path that is text is text again, so turning
//! its answer back into a string loses nothing.

use crate::text::option_text;
use vstd::prelude::*;

verus! {

/// The final component of `path` as `std::path::Path::file_name` gives it,
/// or `None` where the path has none.
pub uninterp spec fn folder_name_of(path: Seq<char>) -> Option<Seq<char>>;

/// The path without its final component as `std::path::Path::parent`
/// gives it, or `None` where the path ends in a root or is empty.
pub uninterp spec fn parent_of(path: Seq<char>) -> Option<Seq<char>>;

/// The extension of the final component of `path` as
/// `std::path::Path::extension` gives it, or `None` where there is none.
pub uninterp spec fn extension_of(path: Seq<char>) -> Option<Seq<char>>;

/// `base` with `part` adjoined as `std::path::Path::join` does it.
pub uninterp spec fn joined(base: Seq<char>, part: Seq<char>) -> Seq<char>;

/// Calls `std::path::Path::file_name`. Nothing is proved of the result:
/// the contract only gives it the name [`folder_name_of`].
#[verifier::external_body]
pub(crate) fn folder_name(path: &str) -> (name: Option<String>)
    ensures
        option_text(name) == folder_name_of(path@),
{
    match std::path::Path::new(path).file_name() {
        Some(name) => Some(name.to_string_lossy().into_owned()),
        None => None,
    }
}

/// Calls `std::path::Path::parent`. Nothing is proved of the result:
/// the contract only gives it the name [`parent_of`].
#[verifier::external_body]
pub(crate) fn parent_dir(path: &str) -> (parent: Option<String>)
    ensures
        option_text(parent) == parent_of(path@),
{
    match std::path::Path::new(path).parent() {
        Some(parent) => Some(parent.to_string_lossy().into_owned()),
        None => None,
    }
}

/// Calls `std::path::Path::extension`. Nothing is proved of the result:
/// the contract only gives it the name [`extension_of`].
#[verifier::external_body]
pub(crate) fn extension(path: &str) -> (ext: Option<String>)
    ensures
        option_text(ext) == extension_of(path@),
{
    match std::path::Path::new(path).extension() {
        Some(ext) => Some(ext.to_string_lossy().into_owned()),
        None => None,
    }
}

/// Calls `std::path::Path::join`. Nothing is proved of the result: the
/// contract only gives it the name [`joined`].
#[verifier::external_body]
pub(crate) fn join(base: &str, part: &str) -> (path: String)
    ensures
        path@ == joined(base@, part@),
{
    std::path::Path::new(base).join(part).to_string_lossy().into_owned()
}

} // verus!
