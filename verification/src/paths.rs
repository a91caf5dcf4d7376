//! Paths, held as text and taken apart by the standard library.
//!
//! The library keeps every path as a string. How a path splits into folder,
//! file name, stem and extension is for `std::path` to say, so each question is
//! put to it through one small function whose answer is given a name.

use vstd::prelude::*;
use crate::source::text_of;

verus! {

/// Whether `std` takes the path for an absolute one.
pub uninterp spec fn path_is_absolute(path: Seq<char>) -> bool;

/// The path without its last component, as `std` gives it.
pub uninterp spec fn path_parent(path: Seq<char>) -> Option<Seq<char>>;

/// The path that `std` makes of a base and a path to go on with.
pub uninterp spec fn path_joined(base: Seq<char>, rest: Seq<char>) -> Seq<char>;

/// The last component of the path, as `std` gives it.
pub uninterp spec fn path_file_name(path: Seq<char>) -> Option<Seq<char>>;

/// The last component of the path without its extension, as `std` gives it.
pub uninterp spec fn path_file_stem(path: Seq<char>) -> Option<Seq<char>>;

/// The extension of the last component of the path, as `std` gives it.
pub uninterp spec fn path_extension(path: Seq<char>) -> Option<Seq<char>>;

/// Asks `Path::is_absolute`.
///
/// Trusted: the answer depends on the text of the path alone, so it is given
/// the name [`path_is_absolute`].
#[verifier::external_body]
pub(crate) fn is_absolute(path: &str) -> (absolute: bool)
    ensures
        absolute == path_is_absolute(path@),
{
    std::path::Path::new(path).is_absolute()
}

/// Asks `Path::parent`.
///
/// Trusted: the answer depends on the text of the path alone, so it is given
/// the name [`path_parent`].
#[verifier::external_body]
pub(crate) fn parent(path: &str) -> (folder: Option<String>)
    ensures
        text_of(folder) == path_parent(path@),
{
    match std::path::Path::new(path).parent() {
        Some(folder) => Some(folder.to_string_lossy().into_owned()),
        None => None,
    }
}

/// Asks `Path::join`.
///
/// Trusted: the answer depends on the two texts alone, so it is given the name
/// [`path_joined`].
#[verifier::external_body]
pub(crate) fn join(base: &str, rest: &str) -> (path: String)
    ensures
        path@ == path_joined(base@, rest@),
{
    std::path::Path::new(base).join(rest).to_string_lossy().into_owned()
}

/// Asks `Path::file_name`. The answer is `None` too where the name is no text.
///
/// Trusted: the answer depends on the text of the path alone, so it is given
/// the name [`path_file_name`].
#[verifier::external_body]
pub(crate) fn file_name(path: &str) -> (name: Option<String>)
    ensures
        text_of(name) == path_file_name(path@),
{
    match std::path::Path::new(path).file_name() {
        Some(name) => match name.to_str() {
            Some(text) => Some(text.to_owned()),
            None => None,
        },
        None => None,
    }
}

/// Asks `Path::file_stem`. The answer is `None` too where the stem is no text.
///
/// Trusted: the answer depends on the text of the path alone, so it is given
/// the name [`path_file_stem`].
#[verifier::external_body]
pub(crate) fn file_stem(path: &str) -> (stem: Option<String>)
    ensures
        text_of(stem) == path_file_stem(path@),
{
    match std::path::Path::new(path).file_stem() {
        Some(stem) => match stem.to_str() {
            Some(text) => Some(text.to_owned()),
            None => None,
        },
        None => None,
    }
}

/// Asks `Path::extension`. The answer is `None` too where the extension is no text.
///
/// Trusted: the answer depends on the text of the path alone, so it is given
/// the name [`path_extension`].
#[verifier::external_body]
pub(crate) fn extension(path: &str) -> (ext: Option<String>)
    ensures
        text_of(ext) == path_extension(path@),
{
    match std::path::Path::new(path).extension() {
        Some(ext) => match ext.to_str() {
            Some(text) => Some(text.to_owned()),
            None => None,
        },
        None => None,
    }
}

} // verus!
