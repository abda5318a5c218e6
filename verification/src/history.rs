//! The record of a session: every action asked for, with the outcome it
//! had, and the shapes that record takes in each phase.
//!
//! The record is what the laws of the library speak of: the destination
//! is replaced only after every step of the preparation succeeded, a
//! failed session never replaced it, and the metadata the replacement
//! carries is the one that was read.

use vstd::prelude::*;

use crate::meta::FileMeta;
use crate::phase::Phase;
use crate::protocol::{Action, Job, Reply};

verus! {

/// The destination was found not to be a directory.
pub open spec fn checked() -> Seq<(Action, Reply)> {
    Seq::<(Action, Reply)>::empty().push((Action::CheckIsDir, Reply::Answer(false)))
}

/// ... and, where it was relative, resolved against the current directory.
pub open spec fn resolved(absolute: bool) -> Seq<(Action, Reply)> {
    if absolute {
        checked()
    } else {
        checked().push((Action::ReadCurrentDir, Reply::Done))
    }
}

/// ... and, found to have a parent directory, its chain of directories
/// was created.
pub open spec fn located(absolute: bool) -> Seq<(Action, Reply)> {
    resolved(absolute).push((Action::CreateParentDirs, Reply::Done))
}

/// ... and the temporary file was created there.
pub open spec fn staged(absolute: bool) -> Seq<(Action, Reply)> {
    located(absolute).push((Action::CreateTemp, Reply::Done))
}

/// ... and the caller's bytes written to it.
pub open spec fn written(absolute: bool) -> Seq<(Action, Reply)> {
    staged(absolute).push((Action::WriteData, Reply::Done))
}

/// The temporary file holds the new contents.
pub open spec fn filled(job: Job, absolute: bool) -> Seq<(Action, Reply)> {
    match job {
        Job::Copy => staged(absolute).push((Action::CopyContents, Reply::Done)),
        Job::Write => written(absolute).push((Action::Flush, Reply::Done)),
    }
}

/// The file whose metadata a job carries over: the source of a copy, the
/// destination of a write.
pub open spec fn metadata_read(job: Job) -> Action {
    match job {
        Job::Copy => Action::ReadSourceMetadata,
        Job::Write => Action::ReadDestMetadata,
    }
}

/// ... and that file's metadata `m` was read.
pub open spec fn inspected(job: Job, absolute: bool, m: FileMeta) -> Seq<(Action, Reply)> {
    filled(job, absolute).push((metadata_read(job), Reply::Metadata(m)))
}

/// ... and its permissions set on the temporary file.
pub open spec fn permitted(job: Job, absolute: bool, m: FileMeta) -> Seq<(Action, Reply)> {
    inspected(job, absolute, m).push((Action::SetPermissions(m.mode), Reply::Done))
}

/// ... and its owner, where it has one, given to the temporary file.
pub open spec fn owned(job: Job, absolute: bool, m: FileMeta) -> Seq<(Action, Reply)> {
    match m.owner {
        Some(o) => permitted(job, absolute, m).push((Action::SetOwner(o), Reply::Done)),
        None => permitted(job, absolute, m),
    }
}

/// A write found no file at the destination.
pub open spec fn absent(absolute: bool) -> Seq<(Action, Reply)> {
    filled(Job::Write, absolute).push((Action::ReadDestMetadata, Reply::Missing))
}

/// ... and created the placeholder there.
pub open spec fn placeholder_made(absolute: bool) -> Seq<(Action, Reply)> {
    absent(absolute).push((Action::CreatePlaceholder, Reply::Done))
}

/// ... and read its permission bits `x`.
pub open spec fn placeholder_read(absolute: bool, x: u32) -> Seq<(Action, Reply)> {
    placeholder_made(absolute).push((Action::ReadPlaceholderPermissions, Reply::Mode(x)))
}

/// `h` is a write's record up to the removal of the placeholder: reading
/// its permissions failed, or they were read and set on the temporary
/// file; `failed` tells whether that setting failed.
pub open spec fn placeholder_settled(absolute: bool, h: Seq<(Action, Reply)>, failed: bool) -> bool {
    let n = h.len() as int;
    &&& n >= 1
    &&& {
        let r = h[n - 1].1;
        ||| {
            &&& !failed
            &&& r.is_failure()
            &&& h == placeholder_made(absolute).push((Action::ReadPlaceholderPermissions, r))
        }
        ||| {
            &&& n >= 2
            &&& h[n - 2].1 is Mode
            &&& (r is Done || r.is_failure())
            &&& failed == r.is_failure()
            &&& h == placeholder_read(absolute, h[n - 2].1->Mode_0).push(
                (Action::SetPermissions(h[n - 2].1->Mode_0), r),
            )
        }
    }
}

/// `h` is a write's record where the destination did not exist, once
/// the placeholder business is over: its creation failed, or it was
/// removed after its permissions were carried over (or could not be).
pub open spec fn placeholder_done(absolute: bool, h: Seq<(Action, Reply)>) -> bool {
    let n = h.len() as int;
    &&& n >= 1
    &&& {
        let r = h[n - 1].1;
        ||| {
            &&& r.is_failure()
            &&& h == absent(absolute).push((Action::CreatePlaceholder, r))
        }
        ||| {
            &&& h[n - 1].0 == Action::RemovePlaceholder
            &&& (r is Done || r.is_failure())
            &&& placeholder_settled(absolute, h.drop_last(), false)
        }
    }
}

/// `h` is the record of a copy that is ready to replace the destination:
/// the destination was checked and its directory created, the temporary
/// file filled with the source's contents, given the source's
/// permissions and owner, and the source's times were set on it (with
/// whatever outcome).
pub open spec fn copy_ready(absolute: bool, h: Seq<(Action, Reply)>) -> bool {
    let k = filled(Job::Copy, absolute).len() as int;
    let n = h.len() as int;
    &&& n > k
    &&& h[k].1 is Metadata
    &&& {
        let m = h[k].1->Metadata_0;
        let r = h[n - 1].1;
        &&& (r is Done || r.is_failure())
        &&& h == owned(Job::Copy, absolute, m).push(
            (Action::SetTimes(m.accessed, m.modified), r),
        )
    }
}

/// `h` is the record of a write that is ready to replace the destination:
/// the destination was checked and its directory created, the temporary
/// file holds the caller's bytes and was flushed, and either it was given
/// the permissions and owner of the file at the destination, or there was
/// none and the placeholder was dealt with.
pub open spec fn write_ready(absolute: bool, h: Seq<(Action, Reply)>) -> bool {
    let k = filled(Job::Write, absolute).len() as int;
    &&& h.len() > k
    &&& {
        ||| {
            &&& h[k].1 is Metadata
            &&& h == owned(Job::Write, absolute, h[k].1->Metadata_0)
        }
        ||| {
            &&& h[k].1 is Missing
            &&& placeholder_done(absolute, h)
        }
    }
}

/// `h` is the record of a session of `job` that is ready to replace the
/// destination.
pub open spec fn ready_to_replace(job: Job, absolute: bool, h: Seq<(Action, Reply)>) -> bool {
    match job {
        Job::Copy => copy_ready(absolute, h),
        Job::Write => write_ready(absolute, h),
    }
}

/// No action of `h` moved the temporary file over the destination.
/// (A write to a missing destination does create and remove a
/// placeholder at the destination's name; that is not a replacement.)
pub open spec fn never_persisted(h: Seq<(Action, Reply)>) -> bool {
    forall|i: int| 0 <= i < h.len() ==> #[trigger] h[i].0 != Action::Persist
}

/// The destination was replaced, once, as the last action, after a
/// complete preparation.
pub open spec fn replaced(job: Job, absolute: bool, h: Seq<(Action, Reply)>) -> bool {
    &&& h.len() >= 1
    &&& h[h.len() - 1] == (Action::Persist, Reply::Done)
    &&& never_persisted(h.drop_last())
    &&& ready_to_replace(job, absolute, h.drop_last())
}

/// The destination was never replaced by the temporary file: no move was
/// asked for, or the one move, asked for after a complete preparation,
/// failed. (A placeholder that a write created where no file was may
/// remain, if its removal failed.)
pub open spec fn not_replaced(job: Job, absolute: bool, h: Seq<(Action, Reply)>) -> bool {
    ||| never_persisted(h)
    ||| {
        &&& h.len() >= 1
        &&& h[h.len() - 1].0 == Action::Persist
        &&& h[h.len() - 1].1.is_failure()
        &&& never_persisted(h.drop_last())
        &&& ready_to_replace(job, absolute, h.drop_last())
    }
}

/// Every placeholder created in `h` was, later in `h`, asked to be
/// removed.
pub open spec fn placeholders_removed(h: Seq<(Action, Reply)>) -> bool {
    forall|i: int|
        0 <= i < h.len() && #[trigger] h[i] == (Action::CreatePlaceholder, Reply::Done) ==> exists|
            j: int,
        |
            i < j < h.len() && (#[trigger] h[j]).0 == Action::RemovePlaceholder
}

/// `h` is the record that leads a session of `job` to `phase`.
pub open spec fn history_fits<E>(
    job: Job,
    absolute: bool,
    phase: Phase<E>,
    h: Seq<(Action, Reply)>,
) -> bool {
    &&& (!(phase is Finished) ==> never_persisted(h))
    &&& match phase {
        Phase::ReadingPlaceholderMode => placeholders_removed(absent(absolute)),
        Phase::SettingPlaceholderMode(_) => placeholders_removed(absent(absolute)),
        Phase::RemovingPlaceholder(_) => placeholders_removed(absent(absolute)),
        _ => placeholders_removed(h),
    }
    &&& match phase {
        Phase::CheckingDir => h == Seq::<(Action, Reply)>::empty(),
        Phase::ReadingCwd => !absolute && h == checked(),
        Phase::CreatingDirs => h == resolved(absolute),
        Phase::CreatingTemp => h == located(absolute),
        Phase::CopyingContents => job == Job::Copy && h == staged(absolute),
        Phase::WritingData => job == Job::Write && h == staged(absolute),
        Phase::Flushing => job == Job::Write && h == written(absolute),
        Phase::ReadingSourceMeta => job == Job::Copy && h == filled(job, absolute),
        Phase::ReadingDestMeta => job == Job::Write && h == filled(job, absolute),
        Phase::SettingPermissions(m) => h == inspected(job, absolute, m),
        Phase::SettingOwner(o, m) => m.owner == Some(o) && h == permitted(job, absolute, m),
        Phase::SettingTimes(m) => job == Job::Copy && h == owned(job, absolute, m),
        Phase::CreatingPlaceholder => job == Job::Write && h == absent(absolute),
        Phase::ReadingPlaceholderMode => job == Job::Write && h == placeholder_made(absolute),
        Phase::SettingPlaceholderMode(x) => job == Job::Write && h == placeholder_read(absolute, x),
        Phase::RemovingPlaceholder(deferred) => job == Job::Write && placeholder_settled(
            absolute,
            h,
            deferred is Some,
        ),
        Phase::Persisting => ready_to_replace(job, absolute, h),
        Phase::Finished(ok) => if ok {
            replaced(job, absolute, h)
        } else {
            not_replaced(job, absolute, h)
        },
    }
}

} // verus!
