//! Plain values for what the library reads from a file's metadata and
//! carries over to the file that replaces the destination.

use vstd::prelude::*;

verus! {

/// A file time: whole seconds since the Unix epoch and the nanoseconds
/// past that second.
#[derive(Clone, Copy, Debug, PartialEq, Eq)]
pub struct Stamp {
    pub seconds: i64,
    pub nanos: u32,
}

/// The user and group that own a file.
#[derive(Clone, Copy, Debug, PartialEq, Eq)]
pub struct Owner {
    pub uid: u32,
    pub gid: u32,
}

/// What is kept of a file's metadata: its permission bits, its owner
/// (where the platform has one), and its access and modification times.
#[derive(Clone, Copy, Debug, PartialEq, Eq)]
pub struct FileMeta {
    pub mode: u32,
    pub owner: Option<Owner>,
    pub accessed: Stamp,
    pub modified: Stamp,
}

} // verus!
