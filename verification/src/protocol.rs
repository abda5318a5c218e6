//! The vocabulary between a [`crate::session::Session`] and the code that
//! touches the file system: the steps it asks for, the outcomes it is
//! told, and how a session ends.

use vstd::prelude::*;

use crate::meta::{FileMeta, Owner, Stamp};

verus! {

/// What is to be done atomically.
#[derive(Clone, Copy, Debug, PartialEq, Eq)]
pub enum Job {
    /// Write caller-supplied bytes to the destination, keeping the
    /// permissions and ownership of a file already there.
    Write,
    /// Copy a source file to the destination, with its permissions,
    /// ownership and access/modification times.
    Copy,
}

/// One piece of outside work that a session asks for.
///
/// "Temporary file" is the file created next to the destination that
/// eventually replaces it; "placeholder" is an empty file briefly created
/// at the destination itself to learn the default permissions there.
#[derive(Clone, Copy, Debug, PartialEq, Eq)]
pub enum Action {
    /// Tell whether the destination is an existing directory
    /// (answer with [`Event::Answer`]).
    CheckIsDir,
    /// Read the current directory, against which the relative
    /// destination is resolved (answer with [`Event::Dir`]).
    ReadCurrentDir,
    /// Create the session's parent directory (see
    /// [`crate::session::Session::parent_dir`]) and all its missing
    /// ancestors.
    CreateParentDirs,
    /// Create the temporary file in the session's parent directory.
    CreateTemp,
    /// Copy the source file's contents into the temporary file.
    CopyContents,
    /// Write all the caller's bytes into the temporary file.
    WriteData,
    /// Flush the temporary file.
    Flush,
    /// Read the source file's metadata (answer with [`Event::Metadata`]).
    ReadSourceMetadata,
    /// Read the metadata of the session's destination (see
    /// [`crate::session::Session::target`]; answer with
    /// [`Event::Metadata`], or [`Event::Missing`] where it does not exist).
    ReadDestMetadata,
    /// Set these permission bits on the temporary file.
    SetPermissions(u32),
    /// Give the temporary file this owner.
    SetOwner(Owner),
    /// Set the temporary file's access and modification times.
    SetTimes(Stamp, Stamp),
    /// Create an empty placeholder file at the session's destination.
    CreatePlaceholder,
    /// Read the placeholder's permission bits (answer with [`Event::Mode`]).
    ReadPlaceholderPermissions,
    /// Remove the placeholder.
    RemovePlaceholder,
    /// Move the temporary file over the session's destination.
    Persist,
}

/// The outcome of the action last asked for.
#[derive(Debug)]
pub enum Event<E> {
    /// The answer to a yes/no question.
    Answer(bool),
    /// The action succeeded.
    Done,
    /// The action failed with this error.
    Failed(E),
    /// The action failed with this error because the file does not exist.
    Missing(E),
    /// The metadata that was read.
    Metadata(FileMeta),
    /// The permission bits that were read.
    Mode(u32),
    /// The current directory that was read.
    Dir(String),
}

/// An outcome with its error, and a directory read, left out: what a session's record keeps.
#[derive(Clone, Copy, Debug, PartialEq, Eq)]
pub enum Reply {
    Answer(bool),
    Done,
    Failed,
    Missing,
    Metadata(FileMeta),
    Mode(u32),
}

impl Reply {
    /// The outcome was a failure.
    pub open spec fn is_failure(self) -> bool {
        self is Failed || self is Missing
    }
}

impl<E> Event<E> {
    /// The outcome without its error.
    pub open spec fn reply(self) -> Reply {
        match self {
            Event::Answer(b) => Reply::Answer(b),
            Event::Done => Reply::Done,
            Event::Failed(_) => Reply::Failed,
            Event::Missing(_) => Reply::Missing,
            Event::Metadata(m) => Reply::Metadata(m),
            Event::Mode(x) => Reply::Mode(x),
            Event::Dir(_) => Reply::Done,
        }
    }

    /// The error the outcome carries, if it is a failure.
    pub open spec fn failure(self) -> Option<E> {
        match self {
            Event::Failed(e) => Some(e),
            Event::Missing(e) => Some(e),
            _ => None,
        }
    }
}

/// Whether `ev` is an outcome that `action` can have.
pub open spec fn fits<E>(action: Action, ev: Event<E>) -> bool {
    match action {
        Action::CheckIsDir => ev is Answer,
        Action::ReadCurrentDir => ev is Dir || ev.failure() is Some,
        Action::ReadSourceMetadata => ev is Metadata || ev.failure() is Some,
        Action::ReadDestMetadata => ev is Metadata || ev.failure() is Some,
        Action::ReadPlaceholderPermissions => ev is Mode || ev.failure() is Some,
        _ => ev is Done || ev.failure() is Some,
    }
}

/// Tells whether `ev` is an outcome that `action` can have.
pub fn outcome_fits<E>(action: Action, ev: &Event<E>) -> (b: bool)
    ensures
        b == fits(action, *ev),
{
    let failed = match ev {
        Event::Failed(_) => true,
        Event::Missing(_) => true,
        _ => false,
    };
    match action {
        Action::CheckIsDir => matches!(ev, Event::Answer(_)),
        Action::ReadCurrentDir => matches!(ev, Event::Dir(_)) || failed,
        Action::ReadSourceMetadata | Action::ReadDestMetadata => matches!(ev, Event::Metadata(_))
            || failed,
        Action::ReadPlaceholderPermissions => matches!(ev, Event::Mode(_)) || failed,
        _ => matches!(ev, Event::Done) || failed,
    }
}

/// The two ways the destination path itself can be refused.
#[derive(Clone, Copy, Debug, PartialEq, Eq)]
pub enum PathFault {
    /// The destination is an existing directory.
    IsDirectory,
    /// The resolved destination has no parent directory.
    NoParent,
}

/// The category of error a [`PathFault`] is reported as.
#[derive(Clone, Copy, Debug, PartialEq, Eq)]
pub enum FaultKind {
    InvalidInput,
    NotFound,
}

impl PathFault {
    /// The category this refusal is reported as.
    pub fn kind(&self) -> (k: FaultKind)
        ensures
            k == (match *self {
                PathFault::IsDirectory => FaultKind::InvalidInput,
                PathFault::NoParent => FaultKind::NotFound,
            }),
    {
        match self {
            PathFault::IsDirectory => FaultKind::InvalidInput,
            PathFault::NoParent => FaultKind::NotFound,
        }
    }

    /// The message this refusal is reported with.
    pub fn message(&self) -> (m: &'static str)
        ensures
            m@ == (match *self {
                PathFault::IsDirectory => "Path cannot be a directory."@,
                PathFault::NoParent => "Path must have a parent directory."@,
            }),
    {
        match self {
            PathFault::IsDirectory => "Path cannot be a directory.",
            PathFault::NoParent => "Path must have a parent directory.",
        }
    }
}

/// Why a session failed.
#[derive(Debug)]
pub enum Fault<E> {
    /// The destination path was refused.
    Path(PathFault),
    /// An action failed with this error.
    Io(E),
}

/// What a session answers to an outcome: the next action, or the end.
#[derive(Debug)]
pub enum Step<E> {
    Do(Action),
    Finish(Result<(), Fault<E>>),
}

} // verus!
