//! What holds of every session, proved from the transition and the
//! record of a session.

use vstd::prelude::*;

use crate::history::{
    absent, checked, copy_ready, filled, inspected, located, not_replaced, owned, permitted, placeholder_made, placeholder_read, replaced, resolved, staged, write_ready,
    written,
};
use crate::meta::FileMeta;
use crate::phase::{transition, Phase};
use crate::protocol::fits;
use crate::session::unresolved;
use crate::protocol::{Action, Event, Fault, Job, PathFault, Reply, Step};

verus! {

/// The phases whose action is required: a failure there ends the session
/// with that failure.
pub open spec fn required<E>(phase: Phase<E>) -> bool {
    match phase {
        Phase::ReadingCwd => true,
        Phase::CreatingDirs => true,
        Phase::CreatingTemp => true,
        Phase::CopyingContents => true,
        Phase::WritingData => true,
        Phase::Flushing => true,
        Phase::ReadingSourceMeta => true,
        Phase::ReadingDestMeta => true,
        Phase::SettingPermissions(_) => true,
        Phase::SettingOwner(_, _) => true,
        Phase::Persisting => true,
        _ => false,
    }
}

/// The phases whose action is done on a best-effort basis: whatever its
/// outcome, the session goes on.
pub open spec fn best_effort<E>(phase: Phase<E>) -> bool {
    match phase {
        Phase::SettingTimes(_) => true,
        Phase::CreatingPlaceholder => true,
        Phase::ReadingPlaceholderMode => true,
        Phase::SettingPlaceholderMode(_) => true,
        Phase::RemovingPlaceholder(d) => d is None,
        _ => false,
    }
}

/// Errors bubble up unchanged: when a required action fails with `e`
/// (for reading the destination's metadata, with anything but "not
/// found"), the session ends at once and reports `e`.
pub proof fn law_failures_propagate<E>(
    job: Job,
    absolute: bool,
    phase: Phase<E>,
    ev: Event<E>,
    e: E,
    found: bool,
)
    requires
        required(phase),
        ev.failure() == Some(e),
        phase is ReadingDestMeta ==> ev is Failed,
    ensures
        transition(job, absolute, phase, ev, found) == (Phase::<E>::Finished(false), Step::Finish(
            Err(Fault::Io(e)),
        )),
{
}

/// Setting the times, and everything done with the placeholder, never
/// ends a session, whatever its outcome.
pub proof fn law_best_effort_goes_on<E>(
    job: Job,
    absolute: bool,
    phase: Phase<E>,
    ev: Event<E>,
    found: bool,
)
    requires
        best_effort(phase),
    ensures
        transition(job, absolute, phase, ev, found).1 is Do,
        !(transition(job, absolute, phase, ev, found).0 is Finished),
{
}

/// A failure to give the temporary file the placeholder's permissions
/// is reported, but only once the placeholder is removed, whatever the
/// outcome of the removal.
pub proof fn law_placeholder_error_after_removal<E>(
    job: Job,
    absolute: bool,
    e: E,
    ev: Event<E>,
    found: bool,
)
    ensures
        transition(job, absolute, Phase::RemovingPlaceholder(Some(e)), ev, found) == (
            Phase::<E>::Finished(false),
            Step::Finish(Err(Fault::Io(e))),
        ),
{
}

/// A destination that is a directory is refused before anything else is
/// done, and so is one that, resolved, has no parent directory; where it
/// has one, the parent directory is created next.
pub proof fn law_path_refusals<E>(job: Job, cwd: String)
    ensures
        transition(job, true, Phase::<E>::CheckingDir, Event::Answer(true), true) == (
            Phase::<E>::Finished(false),
            Step::Finish(Err(Fault::<E>::Path(PathFault::IsDirectory))),
        ),
        transition(job, false, Phase::<E>::CheckingDir, Event::Answer(true), true) == (
            Phase::<E>::Finished(false),
            Step::Finish(Err(Fault::<E>::Path(PathFault::IsDirectory))),
        ),
        transition(job, true, Phase::<E>::CheckingDir, Event::Answer(false), false) == (
            Phase::<E>::Finished(false),
            Step::Finish(Err(Fault::<E>::Path(PathFault::NoParent))),
        ),
        transition(job, false, Phase::<E>::ReadingCwd, Event::Dir(cwd), false) == (
            Phase::<E>::Finished(false),
            Step::Finish(Err(Fault::<E>::Path(PathFault::NoParent))),
        ),
        transition(job, true, Phase::<E>::CheckingDir, Event::Answer(false), true) == (
            Phase::<E>::CreatingDirs,
            Step::<E>::Do(Action::CreateParentDirs),
        ),
        transition(job, false, Phase::<E>::ReadingCwd, Event::Dir(cwd), true) == (
            Phase::<E>::CreatingDirs,
            Step::<E>::Do(Action::CreateParentDirs),
        ),
{
}

/// A copy ready to replace its destination has copied the source's
/// contents into the temporary file and given it the source's
/// permissions, owner and times, all read in one metadata read.
pub proof fn law_copy_carries_source_metadata(absolute: bool, h: Seq<(Action, Reply)>)
    requires
        copy_ready(absolute, h),
    ensures
        ({
            let k = filled(Job::Copy, absolute).len() as int;
            let m = h[k].1->Metadata_0;
            &&& h[k - 1] == (Action::CopyContents, Reply::Done)
            &&& h[k].0 == Action::ReadSourceMetadata
            &&& h[k + 1] == (Action::SetPermissions(m.mode), Reply::Done)
            &&& (m.owner matches Some(o) ==> h[k + 2] == (Action::SetOwner(o), Reply::Done))
            &&& h[h.len() - 1].0 == Action::SetTimes(m.accessed, m.modified)
        }),
{
    let k = filled(Job::Copy, absolute).len() as int;
    let m = h[k].1->Metadata_0;
    assert(h[k - 1] == staged(absolute).push((Action::CopyContents, Reply::Done))[k - 1]);
    assert(h[k + 1] == permitted(Job::Copy, absolute, m)[k + 1]);
    if m.owner is Some {
        assert(h[k + 2] == owned(Job::Copy, absolute, m)[k + 2]);
    }
}

/// No record entry of `h` sets file times.
pub open spec fn times_untouched(h: Seq<(Action, Reply)>) -> bool {
    forall|i: int| 0 <= i < h.len() ==> !(#[trigger] h[i].0 is SetTimes)
}

proof fn lemma_times_untouched_push(h: Seq<(Action, Reply)>, x: (Action, Reply))
    requires
        times_untouched(h),
        !(x.0 is SetTimes),
    ensures
        times_untouched(h.push(x)),
{
    assert forall|i: int| 0 <= i < h.push(x).len() implies !(#[trigger] h.push(x)[i].0 is SetTimes) by {
        if i < h.len() {
            assert(h.push(x)[i] == h[i]);
        }
    }
}

/// The record of a write up to its metadata read never set times.
proof fn lemma_write_prefix_times_untouched(absolute: bool)
    ensures
        times_untouched(filled(Job::Write, absolute)),
{
    let e = Seq::<(Action, Reply)>::empty();
    lemma_times_untouched_push(e, (Action::CheckIsDir, Reply::Answer(false)));
    assert(checked() == e.push((Action::CheckIsDir, Reply::Answer(false))));
    if !absolute {
        lemma_times_untouched_push(checked(), (Action::ReadCurrentDir, Reply::Done));
    }
    lemma_times_untouched_push(resolved(absolute), (Action::CreateParentDirs, Reply::Done));
    lemma_times_untouched_push(located(absolute), (Action::CreateTemp, Reply::Done));
    lemma_times_untouched_push(staged(absolute), (Action::WriteData, Reply::Done));
    lemma_times_untouched_push(written(absolute), (Action::Flush, Reply::Done));
}

/// A write ready to replace a destination that exists has given the
/// temporary file the destination's permissions and owner, and has
/// carried no file times over.
pub proof fn law_write_keeps_destination_metadata(absolute: bool, h: Seq<(Action, Reply)>)
    requires
        write_ready(absolute, h),
        h[filled(Job::Write, absolute).len() as int].1 is Metadata,
    ensures
        ({
            let k = filled(Job::Write, absolute).len() as int;
            let m = h[k].1->Metadata_0;
            &&& h[k - 1] == (Action::Flush, Reply::Done)
            &&& h[k].0 == Action::ReadDestMetadata
            &&& h[k + 1] == (Action::SetPermissions(m.mode), Reply::Done)
            &&& (m.owner matches Some(o) ==> h[k + 2] == (Action::SetOwner(o), Reply::Done))
            &&& times_untouched(h)
        }),
{
    let k = filled(Job::Write, absolute).len() as int;
    let m = h[k].1->Metadata_0;
    assert(h[k - 1] == written(absolute).push((Action::Flush, Reply::Done))[k - 1]);
    assert(h[k + 1] == permitted(Job::Write, absolute, m)[k + 1]);
    lemma_write_prefix_times_untouched(absolute);
    lemma_times_untouched_push(
        filled(Job::Write, absolute),
        (Action::ReadDestMetadata, Reply::Metadata(m)),
    );
    lemma_times_untouched_push(
        inspected(Job::Write, absolute, m),
        (Action::SetPermissions(m.mode), Reply::Done),
    );
    if m.owner is Some {
        assert(h[k + 2] == owned(Job::Write, absolute, m)[k + 2]);
        lemma_times_untouched_push(
            permitted(Job::Write, absolute, m),
            (Action::SetOwner(m.owner.unwrap()), Reply::Done),
        );
    }
}

/// A write ready to replace a destination that did not exist has removed
/// the placeholder it created, has given the temporary file no
/// permissions but the placeholder's, and has carried no file times
/// over.
pub proof fn law_write_new_file_uses_placeholder(absolute: bool, h: Seq<(Action, Reply)>)
    requires
        write_ready(absolute, h),
        h[filled(Job::Write, absolute).len() as int].1 is Missing,
    ensures
        ({
            let k = filled(Job::Write, absolute).len() as int;
            let n = h.len() as int;
            &&& h[k] == (Action::ReadDestMetadata, Reply::Missing)
            &&& h[k + 1].0 == Action::CreatePlaceholder
            &&& (h[k + 1].1 is Done ==> h[n - 1].0 == Action::RemovePlaceholder)
            &&& (h[k + 1].1 is Done ==> h[k + 2].0 == Action::ReadPlaceholderPermissions)
            &&& (forall|i: int|
                #![trigger h[i]]
                k < i < n && h[i].0 is SetPermissions ==> h[i - 1] == (
                    Action::ReadPlaceholderPermissions,
                    Reply::Mode(h[i].0->SetPermissions_0),
                ))
            &&& times_untouched(h)
        }),
{
    let k = filled(Job::Write, absolute).len() as int;
    let n = h.len() as int;
    lemma_write_prefix_times_untouched(absolute);
    lemma_times_untouched_push(filled(Job::Write, absolute), (Action::ReadDestMetadata, Reply::Missing));
    let r = h[n - 1].1;
    if r.is_failure() && h == absent(absolute).push((Action::CreatePlaceholder, r)) {
        assert(h[k] == absent(absolute)[k]);
        lemma_times_untouched_push(absent(absolute), (Action::CreatePlaceholder, r));
    } else {
        let g = h.drop_last();
        let gn = g.len() as int;
        let gr = g[gn - 1].1;
        assert(h == g.push(h[n - 1]));
        lemma_times_untouched_push(absent(absolute), (Action::CreatePlaceholder, Reply::Done));
        assert(g[k + 1] == placeholder_made(absolute)[k + 1]);
        assert(g[k] == absent(absolute)[k]);
        assert(h[k] == g[k]);
        assert(h[k + 1] == g[k + 1]);
        assert(h[k + 2] == g[k + 2]);
        if gr.is_failure() && g == placeholder_made(absolute).push(
            (Action::ReadPlaceholderPermissions, gr),
        ) {
            lemma_times_untouched_push(
                placeholder_made(absolute),
                (Action::ReadPlaceholderPermissions, gr),
            );
        } else {
            let x = g[gn - 2].1->Mode_0;
            assert(g[k + 2] == placeholder_read(absolute, x)[k + 2]);
            lemma_times_untouched_push(
                placeholder_made(absolute),
                (Action::ReadPlaceholderPermissions, Reply::Mode(x)),
            );
            lemma_times_untouched_push(
                placeholder_read(absolute, x),
                (Action::SetPermissions(x), gr),
            );
        }
        lemma_times_untouched_push(g, h[n - 1]);
    }
}

/// A session that replaced its destination did not also keep it: success
/// and failure are told apart by the record alone.
pub proof fn law_replaced_excludes_kept(job: Job, absolute: bool, h: Seq<(Action, Reply)>)
    requires
        replaced(job, absolute, h),
    ensures
        !not_replaced(job, absolute, h),
{
    assert(h[h.len() - 1].0 == Action::Persist);
}

/// The metadata a phase holds on to between reading it and carrying it
/// over to the temporary file.
pub open spec fn held_metadata<E>(phase: Phase<E>) -> Option<FileMeta> {
    match phase {
        Phase::SettingPermissions(m) => Some(m),
        Phase::SettingOwner(_, m) => Some(m),
        Phase::SettingTimes(m) => Some(m),
        _ => None,
    }
}

/// How many steps, at most, stand between a phase and the end.
pub open spec fn remaining<E>(phase: Phase<E>) -> nat {
    match phase {
        Phase::CheckingDir => 20,
        Phase::ReadingCwd => 19,
        Phase::CreatingDirs => 18,
        Phase::CreatingTemp => 17,
        Phase::CopyingContents => 16,
        Phase::WritingData => 16,
        Phase::Flushing => 15,
        Phase::ReadingSourceMeta => 14,
        Phase::ReadingDestMeta => 14,
        Phase::CreatingPlaceholder => 11,
        Phase::ReadingPlaceholderMode => 10,
        Phase::SettingPlaceholderMode(_) => 9,
        Phase::RemovingPlaceholder(_) => 8,
        Phase::SettingPermissions(_) => 7,
        Phase::SettingOwner(_, _) => 6,
        Phase::SettingTimes(_) => 5,
        Phase::Persisting => 1,
        Phase::Finished(_) => 0,
    }
}

/// The action a session tells its caller to perform is the one it then
/// waits for, and so the one its record logs next; a session that ends
/// waits for nothing more, and has succeeded exactly when it says so.
pub proof fn law_step_is_awaited<E>(job: Job, absolute: bool, phase: Phase<E>, ev: Event<E>, found: bool)
    requires
        phase.awaiting() is Some,
        fits(phase.awaiting().unwrap(), ev),
    ensures
        ({
            let (next, step) = transition(job, absolute, phase, ev, found);
            &&& (step matches Step::Do(a) ==> next.awaiting() == Some(a))
            &&& (step matches Step::Finish(r) ==> next == Phase::<E>::Finished(r is Ok))
        }),
{
}

/// The permission bits a session asks to set are always ones it was just
/// told: the mode of the metadata read (of the source of a copy, of the
/// existing destination of a write) or the placeholder's mode; and each
/// such read is followed at once by setting exactly those bits.
pub proof fn law_permissions_are_the_ones_read<E>(
    job: Job,
    absolute: bool,
    phase: Phase<E>,
    ev: Event<E>,
    found: bool,
    x: u32,
)
    requires
        phase.awaiting() is Some,
        fits(phase.awaiting().unwrap(), ev),
    ensures
        transition(job, absolute, phase, ev, found).1 == Step::<E>::Do(Action::SetPermissions(x))
            ==> {
            ||| ((phase is ReadingSourceMeta || phase is ReadingDestMeta) && ev is Metadata
                && ev->Metadata_0.mode == x)
            ||| (phase is ReadingPlaceholderMode && ev == Event::<E>::Mode(x))
        },
        (phase is ReadingSourceMeta || phase is ReadingDestMeta) && ev is Metadata ==> transition(
            job,
            absolute,
            phase,
            ev,
            found,
        ).1 == Step::<E>::Do(Action::SetPermissions(ev->Metadata_0.mode)) && held_metadata(
            transition(job, absolute, phase, ev, found).0,
        ) == Some(ev->Metadata_0),
        phase is ReadingPlaceholderMode && ev == Event::<E>::Mode(x) ==> transition(
            job,
            absolute,
            phase,
            ev,
            found,
        ).1 == Step::<E>::Do(Action::SetPermissions(x)),
{
}

/// The owner and the times a session asks to set are those of the
/// metadata it read, which it holds unchanged until they are set; times
/// are only set by a copy, after its permissions and owner succeeded.
pub proof fn law_owner_and_times_are_the_ones_read<E>(
    job: Job,
    absolute: bool,
    phase: Phase<E>,
    ev: Event<E>,
    found: bool,
)
    requires
        phase.awaiting() is Some,
        fits(phase.awaiting().unwrap(), ev),
    ensures
        ({
            let (next, step) = transition(job, absolute, phase, ev, found);
            &&& (held_metadata(phase) is Some && !(next is Finished) ==> held_metadata(next)
                == held_metadata(phase) || next is Persisting)
            &&& (step matches Step::Do(Action::SetOwner(o)) ==> {
                &&& ev is Done
                &&& held_metadata(phase) is Some
                &&& held_metadata(phase)->Some_0.owner == Some(o)
            })
            &&& (step matches Step::Do(Action::SetTimes(a, b)) ==> {
                &&& job == Job::Copy
                &&& ev is Done
                &&& held_metadata(phase) is Some
                &&& a == held_metadata(phase)->Some_0.accessed
                &&& b == held_metadata(phase)->Some_0.modified
            })
        }),
{
}

/// Once the temporary file has the permissions of metadata `m`, it is
/// given `m`'s owner where `m` has one; once it has both, a copy is given
/// `m`'s times and a write moves on to replace the destination.
pub proof fn law_metadata_carried_over_in_order<E>(
    job: Job,
    absolute: bool,
    m: FileMeta,
    found: bool,
)
    ensures
        transition(job, absolute, Phase::<E>::SettingPermissions(m), Event::Done, found).1 == (
        match m.owner {
            Some(o) => Step::<E>::Do(Action::SetOwner(o)),
            None => match job {
                Job::Copy => Step::<E>::Do(Action::SetTimes(m.accessed, m.modified)),
                Job::Write => Step::<E>::Do(Action::Persist),
            },
        }),
        m.owner matches Some(o) ==> transition(
            job,
            absolute,
            Phase::<E>::SettingOwner(o, m),
            Event::Done,
            found,
        ).1 == (match job {
            Job::Copy => Step::<E>::Do(Action::SetTimes(m.accessed, m.modified)),
            Job::Write => Step::<E>::Do(Action::Persist),
        }),
{
}

/// A session only fails on what it is told: a refused path ends it only
/// while the destination is being located; any other failure reports the
/// error of the outcome just handed in, or the one held back while the
/// placeholder was removed; and it succeeds only when the move over the
/// destination succeeded.
pub proof fn law_failures_have_a_cause<E>(
    job: Job,
    absolute: bool,
    phase: Phase<E>,
    ev: Event<E>,
    found: bool,
)
    requires
        phase.awaiting() is Some,
        fits(phase.awaiting().unwrap(), ev),
    ensures
        ({
            let step = transition(job, absolute, phase, ev, found).1;
            &&& (step matches Step::Finish(Err(Fault::Path(_))) ==> unresolved(phase))
            &&& (step matches Step::Finish(Err(Fault::Io(e))) ==> ev.failure() == Some(e)
                || phase == Phase::<E>::RemovingPlaceholder(Some(e)))
            &&& (step matches Step::Finish(Ok(_)) ==> phase is Persisting && ev.failure() is None)
        }),
{
}

/// A session handed only successes goes on to the end: past the location
/// of the destination (which succeeds when it is no directory and,
/// resolved, has a parent) every successful outcome is answered with a
/// next action, except that the successful move over the destination ends
/// the session with success; and every step brings the end nearer.
pub proof fn law_successes_go_on<E>(job: Job, absolute: bool, phase: Phase<E>, ev: Event<E>, found: bool)
    requires
        phase.awaiting() is Some,
        fits(phase.awaiting().unwrap(), ev),
    ensures
        ({
            let (next, step) = transition(job, absolute, phase, ev, found);
            &&& (ev.failure() is None && !unresolved(phase) && !(phase is Persisting) && !(
            phase matches Phase::RemovingPlaceholder(Some(_))) ==> step is Do)
            &&& (ev.failure() is None && phase is Persisting ==> step == Step::<E>::Finish(Ok(())))
            &&& (phase is CheckingDir && ev == Event::<E>::Answer(false) && (absolute ==> found)
                ==> step is Do)
            &&& (phase is ReadingCwd && ev is Dir && found ==> step is Do)
            &&& remaining(next) < remaining(phase)
        }),
{
}

} // verus!
