//! The path computations of std that locating the destination rests on,
//! with names for their results.
//!
//! What std's `Path` makes of a path depends on the platform the library
//! is built for (on Unix a path is absolute when it starts with `/`; on
//! Windows it also needs a prefix such as `C:`), so the results are named,
//! not spelled out. Paths are held as `String`s.

use vstd::prelude::*;

verus! {

/// What `std::path::Path::is_absolute` says of path `p`.
pub uninterp spec fn path_is_absolute(p: Seq<char>) -> bool;

/// What `std::path::Path::join` makes of `rel` put after `base`.
pub uninterp spec fn path_joined(base: Seq<char>, rel: Seq<char>) -> Seq<char>;

/// What `std::path::Path::parent` gives of path `p`: the path without its
/// final component, if there is one.
pub uninterp spec fn path_parent(p: Seq<char>) -> Option<Seq<char>>;

/// Calls `std::path::Path::is_absolute` on `p`. Claimed: the answer is
/// [`path_is_absolute`] of `p`, that is, it depends on `p` alone.
#[verifier::external_body]
pub(crate) fn is_absolute(p: &str) -> (b: bool)
    ensures
        b == path_is_absolute(p@),
{
    std::path::Path::new(p).is_absolute()
}

/// Calls `std::path::Path::join` of `rel` onto `base` (the same as
/// pushing `rel` onto a copy of `base`). Claimed: the result, turned back
/// into a `String`, is [`path_joined`] of the two; a path joined from two
/// `&str` is valid UTF-8, so that turn loses nothing.
#[verifier::external_body]
pub(crate) fn joined(base: &str, rel: &str) -> (r: String)
    ensures
        r@ == path_joined(base@, rel@),
{
    std::path::Path::new(base).join(rel).to_string_lossy().into_owned()
}

/// Calls `std::path::Path::parent` on `p`. Claimed: the result, turned
/// into a `String`, is [`path_parent`] of `p`; a parent is a part of `p`,
/// so it is valid UTF-8 and the turn loses nothing.
#[verifier::external_body]
pub(crate) fn parent_of(p: &str) -> (r: Option<String>)
    ensures
        match r {
            Some(q) => path_parent(p@) == Some(q@),
            None => path_parent(p@) is None,
        },
{
    match std::path::Path::new(p).parent() {
        Some(q) => Some(q.to_string_lossy().into_owned()),
        None => None,
    }
}

/// The destination a session works on: the given path where it is
/// absolute, else the given path joined onto the current directory `cwd`.
pub open spec fn resolved_target(absolute: bool, given: Seq<char>, cwd: Seq<char>) -> Seq<char> {
    if absolute {
        given
    } else {
        path_joined(cwd, given)
    }
}

} // verus!
