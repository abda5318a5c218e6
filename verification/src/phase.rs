//! Where a session stands, and how one outcome moves it on.

use vstd::prelude::*;

use crate::meta::{FileMeta, Owner};
use crate::protocol::{Action, Event, Fault, Job, PathFault, Step};

verus! {

/// The state of a session: the outcome it is waiting for, with what it
/// still needs to remember.
#[derive(Debug)]
pub enum Phase<E> {
    CheckingDir,
    ReadingCwd,
    CreatingDirs,
    CreatingTemp,
    CopyingContents,
    WritingData,
    Flushing,
    ReadingSourceMeta,
    ReadingDestMeta,
    /// Giving the temporary file the permissions of this metadata.
    SettingPermissions(FileMeta),
    /// Giving the temporary file this owner, taken from this metadata.
    SettingOwner(Owner, FileMeta),
    /// Giving the temporary file the times of this metadata.
    SettingTimes(FileMeta),
    CreatingPlaceholder,
    ReadingPlaceholderMode,
    /// Giving the temporary file the placeholder's permission bits.
    SettingPlaceholderMode(u32),
    /// Removing the placeholder; holds the error of setting the
    /// permissions, which is reported once the placeholder is gone.
    RemovingPlaceholder(Option<E>),
    Persisting,
    /// The session is over; `true` if it succeeded.
    Finished(bool),
}

impl<E> Phase<E> {
    /// The action whose outcome this phase waits for.
    pub open spec fn awaiting(self) -> Option<Action> {
        match self {
            Phase::CheckingDir => Some(Action::CheckIsDir),
            Phase::ReadingCwd => Some(Action::ReadCurrentDir),
            Phase::CreatingDirs => Some(Action::CreateParentDirs),
            Phase::CreatingTemp => Some(Action::CreateTemp),
            Phase::CopyingContents => Some(Action::CopyContents),
            Phase::WritingData => Some(Action::WriteData),
            Phase::Flushing => Some(Action::Flush),
            Phase::ReadingSourceMeta => Some(Action::ReadSourceMetadata),
            Phase::ReadingDestMeta => Some(Action::ReadDestMetadata),
            Phase::SettingPermissions(m) => Some(Action::SetPermissions(m.mode)),
            Phase::SettingOwner(o, _) => Some(Action::SetOwner(o)),
            Phase::SettingTimes(m) => Some(Action::SetTimes(m.accessed, m.modified)),
            Phase::CreatingPlaceholder => Some(Action::CreatePlaceholder),
            Phase::ReadingPlaceholderMode => Some(Action::ReadPlaceholderPermissions),
            Phase::SettingPlaceholderMode(x) => Some(Action::SetPermissions(x)),
            Phase::RemovingPlaceholder(_) => Some(Action::RemovePlaceholder),
            Phase::Persisting => Some(Action::Persist),
            Phase::Finished(_) => None,
        }
    }
}

/// The action a phase waits for.
pub fn awaited<E>(phase: &Phase<E>) -> (a: Option<Action>)
    ensures
        a == phase.awaiting(),
{
    match phase {
        Phase::CheckingDir => Some(Action::CheckIsDir),
        Phase::ReadingCwd => Some(Action::ReadCurrentDir),
        Phase::CreatingDirs => Some(Action::CreateParentDirs),
        Phase::CreatingTemp => Some(Action::CreateTemp),
        Phase::CopyingContents => Some(Action::CopyContents),
        Phase::WritingData => Some(Action::WriteData),
        Phase::Flushing => Some(Action::Flush),
        Phase::ReadingSourceMeta => Some(Action::ReadSourceMetadata),
        Phase::ReadingDestMeta => Some(Action::ReadDestMetadata),
        Phase::SettingPermissions(m) => Some(Action::SetPermissions(m.mode)),
        Phase::SettingOwner(o, _) => Some(Action::SetOwner(*o)),
        Phase::SettingTimes(m) => Some(Action::SetTimes(m.accessed, m.modified)),
        Phase::CreatingPlaceholder => Some(Action::CreatePlaceholder),
        Phase::ReadingPlaceholderMode => Some(Action::ReadPlaceholderPermissions),
        Phase::SettingPlaceholderMode(x) => Some(Action::SetPermissions(*x)),
        Phase::RemovingPlaceholder(_) => Some(Action::RemovePlaceholder),
        Phase::Persisting => Some(Action::Persist),
        Phase::Finished(_) => None,
    }
}

/// Move on to `next` and ask for its action.
pub open spec fn go<E>(next: Phase<E>) -> (Phase<E>, Step<E>) {
    (next, Step::Do(next.awaiting().unwrap()))
}

/// End the session with `result`.
pub open spec fn stop<E>(result: Result<(), Fault<E>>) -> (Phase<E>, Step<E>) {
    (Phase::Finished(result is Ok), Step::Finish(result))
}

/// Fail with the error of `ev` if it is a failure, else move on to `next`.
pub open spec fn proceed<E>(ev: Event<E>, next: Phase<E>) -> (Phase<E>, Step<E>) {
    match ev.failure() {
        Some(e) => stop(Err(Fault::Io(e))),
        None => go(next),
    }
}

/// End the session with the error of `ev`, an outcome that must be a
/// failure.
pub open spec fn abort<E>(ev: Event<E>) -> (Phase<E>, Step<E>) {
    stop(Err(Fault::Io(ev.failure().unwrap())))
}

/// What follows the permissions taken from `m`: its owner, if it has one.
pub open spec fn after_permissions<E>(job: Job, m: FileMeta) -> Phase<E> {
    match m.owner {
        Some(o) => Phase::SettingOwner(o, m),
        None => after_owner(job, m),
    }
}

/// What follows the owner taken from `m`: a copy also takes its times.
pub open spec fn after_owner<E>(job: Job, m: FileMeta) -> Phase<E> {
    match job {
        Job::Copy => Phase::SettingTimes(m),
        Job::Write => Phase::Persisting,
    }
}

/// The phase after the temporary file exists.
pub open spec fn after_temp<E>(job: Job) -> Phase<E> {
    match job {
        Job::Copy => Phase::CopyingContents,
        Job::Write => Phase::WritingData,
    }
}

/// Go on to create the parent directory, if the resolved destination
/// has one (`found`); refuse the destination otherwise.
pub open spec fn locate<E>(found: bool) -> (Phase<E>, Step<E>) {
    if found {
        go(Phase::CreatingDirs)
    } else {
        stop(Err(Fault::Path(PathFault::NoParent)))
    }
}

/// How a session of `job` (on a destination given as an absolute path
/// or not) answers outcome `ev` in `phase`: the phase it moves to and
/// the step it answers with. `found` tells whether the destination, once
/// resolved, has a parent directory; it only matters where the
/// destination gets resolved.
pub open spec fn transition<E>(
    job: Job,
    absolute: bool,
    phase: Phase<E>,
    ev: Event<E>,
    found: bool,
) -> (Phase<E>, Step<E>) {
    match phase {
        Phase::CheckingDir => if ev matches Event::Answer(true) {
            stop(Err(Fault::Path(PathFault::IsDirectory)))
        } else if absolute {
            locate(found)
        } else {
            go(Phase::ReadingCwd)
        },
        Phase::ReadingCwd => match ev {
            Event::Dir(_) => locate(found),
            _ => abort(ev),
        },
        Phase::CreatingDirs => proceed(ev, Phase::CreatingTemp),
        Phase::CreatingTemp => proceed(ev, after_temp(job)),
        Phase::CopyingContents => proceed(ev, Phase::ReadingSourceMeta),
        Phase::WritingData => proceed(ev, Phase::Flushing),
        Phase::Flushing => proceed(ev, Phase::ReadingDestMeta),
        Phase::ReadingSourceMeta => match ev {
            Event::Metadata(m) => go(Phase::SettingPermissions(m)),
            _ => abort(ev),
        },
        Phase::ReadingDestMeta => match ev {
            Event::Metadata(m) => go(Phase::SettingPermissions(m)),
            Event::Missing(_) => go(Phase::CreatingPlaceholder),
            _ => abort(ev),
        },
        Phase::SettingPermissions(m) => proceed(ev, after_permissions(job, m)),
        Phase::SettingOwner(_, m) => proceed(ev, after_owner(job, m)),
        Phase::SettingTimes(_) => go(Phase::Persisting),
        Phase::CreatingPlaceholder => match ev {
            Event::Done => go(Phase::ReadingPlaceholderMode),
            _ => go(Phase::Persisting),
        },
        Phase::ReadingPlaceholderMode => match ev {
            Event::Mode(x) => go(Phase::SettingPlaceholderMode(x)),
            _ => go(Phase::RemovingPlaceholder(None)),
        },
        Phase::SettingPlaceholderMode(_) => go(Phase::RemovingPlaceholder(ev.failure())),
        Phase::RemovingPlaceholder(deferred) => match deferred {
            Some(e) => stop(Err(Fault::Io(e))),
            None => go(Phase::Persisting),
        },
        Phase::Persisting => match ev.failure() {
            Some(e) => stop(Err(Fault::Io(e))),
            None => stop(Ok(())),
        },
        // A finished session is handed no outcome (see `Session::resume`);
        // this arm only makes the function total.
        Phase::Finished(ok) => (Phase::Finished(ok), Step::Do(Action::CheckIsDir)),
    }
}

} // verus!
