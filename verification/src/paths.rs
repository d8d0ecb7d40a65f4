//! File-system paths, built from text.
use vstd::prelude::*;

use crate::text::is_suffix;

verus! {

/// A plain file name: not empty, and without a separator (`/`, `\`) or a drive colon.
pub open spec fn plain_file_name(name: Seq<char>) -> bool {
    &&& name.len() > 0
    &&& forall|i: int| 0 <= i < name.len() ==> name[i] != '/' && name[i] != '\\' && name[i] != ':'
}

/// A verbatim Windows path (`\\?\...`), which `Path::join` normalises as a whole.
pub open spec fn verbatim_path(dir: Seq<char>) -> bool {
    seq!['\\', '\\', '?', '\\'].is_prefix_of(dir)
}

/// The path of the file `name` inside the directory `dir`.
/// Trusted: `Path::join` of a relative name (which `plain_file_name` guarantees) adds it
/// after `dir`, with at most one separator between them (none when `dir` is empty, already
/// ends with one, or is a bare Windows drive prefix); `to_string_lossy` gives the text back
/// unchanged, since it came from a `str`. Which separator is used differs between
/// platforms, so the contract leaves it open. On Windows a verbatim `dir` (`\\?\...`)
/// makes `join` normalise the whole path, dropping `.` and `..` components of `dir` and of
/// `name`; for such a `dir` the contract says nothing of the result.
#[verifier::external_body]
pub(crate) fn join_path(dir: &str, name: &str) -> (p: String)
    requires
        plain_file_name(name@),
    ensures
        !verbatim_path(dir@) ==> {
            &&& dir@.is_prefix_of(p@)
            &&& is_suffix(name@, p@)
            &&& dir@.len() + name@.len() <= p@.len() <= dir@.len() + name@.len() + 1
        },
{
    std::path::Path::new(dir).join(name).to_string_lossy().into_owned()
}

} // verus!
