//! A session: the decisions of one atomic write or copy, taken one
//! outcome at a time, while the caller performs the actions.

use vstd::prelude::*;

use crate::history::{
    absent, filled, history_fits, inspected, never_persisted, not_replaced, placeholder_made,
    placeholder_read, placeholder_settled, placeholders_removed, ready_to_replace, replaced,
};
use crate::laws::{law_failures_have_a_cause, law_step_is_awaited};
use crate::meta::FileMeta;
use crate::paths::{is_absolute, joined, parent_of, path_is_absolute, path_joined, path_parent, resolved_target};
use crate::phase::{abort, after_owner, awaited, go, locate, proceed, stop, transition, Phase};
use crate::protocol::{outcome_fits, fits, Action, Event, Fault, Job, PathFault, Reply, Step};

verus! {

/// The phases before the destination is resolved.
pub open spec fn unresolved<E>(phase: Phase<E>) -> bool {
    phase is CheckingDir || phase is ReadingCwd
}

/// Whether outcome `ev` in `phase` resolves the destination: the
/// directory check of an absolute destination passed, or the current
/// directory was read.
pub open spec fn resolves<E>(absolute: bool, phase: Phase<E>, ev: Event<E>) -> bool {
    ||| (phase is CheckingDir && absolute && !(ev matches Event::Answer(true)))
    ||| (phase is ReadingCwd && ev is Dir)
}

/// The destination `target` and its parent directory `parent` are the
/// given path resolved (against the current directory `cwd` where it is
/// relative), and the parent std finds in it.
pub open spec fn located_at(
    absolute: bool,
    given: Seq<char>,
    cwd: Seq<char>,
    target: Seq<char>,
    parent: Option<Seq<char>>,
) -> bool {
    &&& target == resolved_target(absolute, given, cwd)
    &&& parent == path_parent(target)
    &&& parent is Some
}

/// How the paths a session holds stand in `phase`: the given path, not
/// yet resolved; or the destination resolved and its parent found.
pub open spec fn paths_fit<E>(
    phase: Phase<E>,
    absolute: bool,
    given: Seq<char>,
    cwd: Seq<char>,
    target: Seq<char>,
    parent: Option<Seq<char>>,
) -> bool {
    if unresolved(phase) {
        target == given && parent is None
    } else if phase is Finished {
        true
    } else {
        located_at(absolute, given, cwd, target, parent)
    }
}

/// The decisions of one atomic write or copy.
///
/// The session asks for one [`Action`] at a time; the caller performs it
/// and hands back its [`Event`]. Every preparation happens on a temporary
/// file next to the destination; the destination itself is only replaced
/// by the last action, [`Action::Persist`], and only once the preparation
/// is complete.
pub struct Session<E> {
    job: Job,
    absolute: bool,
    given: String,
    target: String,
    parent: Option<String>,
    cwd: Ghost<Seq<char>>,
    phase: Phase<E>,
    trace: Ghost<Seq<(Action, Reply)>>,
}

impl<E> Session<E> {
    /// The job this session carries out.
    pub closed spec fn job(self) -> Job {
        self.job
    }

    /// Whether the destination was given as an absolute path.
    pub closed spec fn absolute(self) -> bool {
        self.absolute
    }

    /// The destination path as given.
    pub closed spec fn given_path(self) -> Seq<char> {
        self.given@
    }

    /// The destination path, resolved once the session gets that far.
    pub closed spec fn target_path(self) -> Seq<char> {
        self.target@
    }

    /// The destination's parent directory, once found.
    pub closed spec fn parent_path(self) -> Option<Seq<char>> {
        match self.parent {
            Some(p) => Some(p@),
            None => None,
        }
    }

    /// The current directory that was read, where it was.
    pub closed spec fn cwd_path(self) -> Seq<char> {
        self.cwd@
    }

    /// Where the session stands.
    pub closed spec fn phase(self) -> Phase<E> {
        self.phase
    }

    /// Every action asked for so far, with the outcome it had.
    pub closed spec fn trace(self) -> Seq<(Action, Reply)> {
        self.trace@
    }

    /// The record leads to the phase the session stands in.
    pub closed spec fn wf(self) -> bool {
        &&& history_fits(self.job, self.absolute, self.phase, self.trace@)
        &&& self.absolute == path_is_absolute(self.given@)
        &&& paths_fit(
            self.phase,
            self.absolute,
            self.given@,
            self.cwd@,
            self.target@,
            self.parent_path(),
        )
    }

    /// Starts a session of `job` for the destination path `destination`;
    /// returns it with its first action.
    pub fn new(job: Job, destination: String) -> (r: (Session<E>, Action))
        ensures
            r.0.wf(),
            r.0.job() == job,
            r.0.absolute() == path_is_absolute(destination@),
            r.0.given_path() == destination@,
            r.0.target_path() == destination@,
            r.0.parent_path() is None,
            r.0.phase() == Phase::<E>::CheckingDir,
            r.0.trace() == Seq::<(Action, Reply)>::empty(),
            r.1 == Action::CheckIsDir,
    {
        let absolute = is_absolute(destination.as_str());
        let target = destination.clone();
        let s = Session {
            job,
            absolute,
            given: destination,
            target,
            parent: None,
            cwd: Ghost(Seq::empty()),
            phase: Phase::CheckingDir,
            trace: Ghost(Seq::empty()),
        };
        (s, Action::CheckIsDir)
    }

    /// The destination path as given; [`Action::CheckIsDir`] asks about it.
    pub fn given(&self) -> (r: &str)
        ensures
            r@ == self.given_path(),
    {
        self.given.as_str()
    }

    /// The destination path, resolved once the session gets that far; the
    /// actions on the destination ([`Action::ReadDestMetadata`], the
    /// placeholder's and [`Action::Persist`]) act on it.
    pub fn target(&self) -> (r: &str)
        ensures
            r@ == self.target_path(),
    {
        self.target.as_str()
    }

    /// The destination's parent directory, once found;
    /// [`Action::CreateParentDirs`] and [`Action::CreateTemp`] act on it.
    pub fn parent_dir(&self) -> (r: Option<&str>)
        ensures
            match r {
                Some(p) => self.parent_path() == Some(p@),
                None => self.parent_path() is None,
            },
    {
        match &self.parent {
            Some(p) => Some(p.as_str()),
            None => None,
        }
    }

    /// The action whose outcome the session waits for; `None` once it is
    /// over.
    pub fn awaiting(&self) -> (a: Option<Action>)
        ensures
            a == self.phase().awaiting(),
    {
        awaited(&self.phase)
    }

    /// Tells whether the session waits for an outcome and `ev` is one
    /// that the awaited action can have.
    pub fn accepts(&self, ev: &Event<E>) -> (b: bool)
        ensures
            b == (self.phase().awaiting() is Some && fits(self.phase().awaiting().unwrap(), *ev)),
    {
        match awaited(&self.phase) {
            Some(a) => outcome_fits(a, ev),
            None => false,
        }
    }

    /// Hands the session the outcome `ev` of the action it waits for; it
    /// answers with the next action, or with how the whole job ended.
    pub fn resume(&mut self, ev: Event<E>) -> (step: Step<E>)
        requires
            old(self).wf(),
            old(self).phase().awaiting() is Some,
            fits(old(self).phase().awaiting().unwrap(), ev),
        ensures
            final(self).wf(),
            final(self).job() == old(self).job(),
            final(self).absolute() == old(self).absolute(),
            final(self).given_path() == old(self).given_path(),
            final(self).cwd_path() == (if old(self).phase() is ReadingCwd && ev is Dir {
                ev->Dir_0@
            } else {
                old(self).cwd_path()
            }),
            final(self).target_path() == (if old(self).phase() is ReadingCwd && ev is Dir {
                path_joined(ev->Dir_0@, old(self).given_path())
            } else {
                old(self).target_path()
            }),
            final(self).parent_path() == (if resolves(old(self).absolute(), old(self).phase(), ev) {
                path_parent(final(self).target_path())
            } else {
                old(self).parent_path()
            }),
            (final(self).phase(), step) == transition(
                old(self).job(),
                old(self).absolute(),
                old(self).phase(),
                ev,
                path_parent(final(self).target_path()) is Some,
            ),
            !unresolved(final(self).phase()) && !(final(self).phase() is Finished) ==> located_at(
                final(self).absolute(),
                final(self).given_path(),
                final(self).cwd_path(),
                final(self).target_path(),
                final(self).parent_path(),
            ),
            final(self).trace() == old(self).trace().push(
                (old(self).phase().awaiting().unwrap(), ev.reply()),
            ),
            step == Step::<E>::Do(Action::Persist) ==> never_persisted(final(self).trace())
                && ready_to_replace(final(self).job(), final(self).absolute(), final(self).trace()),
            step matches Step::Finish(Ok(_)) ==> replaced(
                final(self).job(),
                final(self).absolute(),
                final(self).trace(),
            ),
            step matches Step::Finish(Err(_)) ==> not_replaced(
                final(self).job(),
                final(self).absolute(),
                final(self).trace(),
            ),
            step is Finish ==> placeholders_removed(final(self).trace()),
            step matches Step::Do(a) ==> final(self).phase().awaiting() == Some(a),
            step is Finish ==> final(self).phase().awaiting() is None,
            step matches Step::Finish(Err(Fault::Path(_))) ==> unresolved(old(self).phase()),
            step matches Step::Finish(Err(Fault::Io(e))) ==> ev.failure() == Some(e)
                || old(self).phase() == Phase::<E>::RemovingPlaceholder(Some(e)),
            step matches Step::Finish(Ok(_)) ==> old(self).phase() is Persisting
                && ev.failure() is None,
    {
        let ghost old_phase = self.phase;
        let ghost reply = ev.reply();
        let ghost done = old_phase.awaiting().unwrap();
        let ghost h = self.trace@;
        let mut phase = Phase::Finished(false);
        std::mem::swap(&mut phase, &mut self.phase);
        let job = self.job;
        let (next, step) = match phase {
            Phase::CheckingDir => match ev {
                Event::Answer(true) => finish(Err(Fault::Path(PathFault::IsDirectory))),
                _ => if self.absolute {
                    self.parent = parent_of(self.target.as_str());
                    found_parent(self.parent.is_some())
                } else {
                    advance(Phase::ReadingCwd)
                },
            },
            Phase::ReadingCwd => match ev {
                Event::Dir(cwd) => {
                    self.target = joined(cwd.as_str(), self.given.as_str());
                    self.cwd = Ghost(cwd@);
                    self.parent = parent_of(self.target.as_str());
                    found_parent(self.parent.is_some())
                },
                _ => fail(ev),
            },
            Phase::CreatingDirs => carry_on(ev, Phase::CreatingTemp),
            Phase::CreatingTemp => match job {
                Job::Copy => carry_on(ev, Phase::CopyingContents),
                Job::Write => carry_on(ev, Phase::WritingData),
            },
            Phase::CopyingContents => carry_on(ev, Phase::ReadingSourceMeta),
            Phase::WritingData => carry_on(ev, Phase::Flushing),
            Phase::Flushing => carry_on(ev, Phase::ReadingDestMeta),
            Phase::ReadingSourceMeta => match ev {
                Event::Metadata(m) => advance(Phase::SettingPermissions(m)),
                _ => fail(ev),
            },
            Phase::ReadingDestMeta => match ev {
                Event::Metadata(m) => advance(Phase::SettingPermissions(m)),
                Event::Missing(_) => advance(Phase::CreatingPlaceholder),
                _ => fail(ev),
            },
            Phase::SettingPermissions(m) => {
                let next = match m.owner {
                    Some(o) => Phase::SettingOwner(o, m),
                    None => following_owner(job, m),
                };
                carry_on(ev, next)
            },
            Phase::SettingOwner(_, m) => carry_on(ev, following_owner(job, m)),
            Phase::SettingTimes(_) => advance(Phase::Persisting),
            Phase::CreatingPlaceholder => match ev {
                Event::Done => advance(Phase::ReadingPlaceholderMode),
                _ => advance(Phase::Persisting),
            },
            Phase::ReadingPlaceholderMode => match ev {
                Event::Mode(x) => advance(Phase::SettingPlaceholderMode(x)),
                _ => advance(Phase::RemovingPlaceholder(None)),
            },
            Phase::SettingPlaceholderMode(_) => {
                let deferred = match ev {
                    Event::Failed(e) => Some(e),
                    Event::Missing(e) => Some(e),
                    _ => None,
                };
                advance(Phase::RemovingPlaceholder(deferred))
            },
            Phase::RemovingPlaceholder(deferred) => match deferred {
                Some(e) => finish(Err(Fault::Io(e))),
                None => advance(Phase::Persisting),
            },
            Phase::Persisting => match ev {
                Event::Failed(e) => finish(Err(Fault::Io(e))),
                Event::Missing(e) => finish(Err(Fault::Io(e))),
                _ => finish(Ok(())),
            },
            Phase::Finished(ok) => (Phase::Finished(ok), Step::Do(Action::CheckIsDir)),
        };
        self.phase = next;
        self.trace = Ghost(h.push((done, reply)));
        proof {
            lemma_step_keeps_history(
                job,
                self.absolute,
                old_phase,
                ev,
                h,
                path_parent(self.target@) is Some,
            );
            lemma_outcome(job, self.absolute, self.phase, self.trace@);
            let found = path_parent(self.target@) is Some;
            law_step_is_awaited(job, self.absolute, old_phase, ev, found);
            law_failures_have_a_cause(job, self.absolute, old_phase, ev, found);
        }
        step
    }
}

impl<E> Session<E> {
    /// Whatever outcomes a session was handed: once the destination is
    /// resolved, it is the given path (joined onto the current directory
    /// where relative) and the parent directory, where the temporary file
    /// is made, is its parent; while the session waits to replace the
    /// destination, its record is a complete preparation that has not
    /// replaced it; once it succeeded, the destination was replaced, once
    /// and last, after a complete preparation; once it failed, the
    /// destination was never replaced; and once it is over, every
    /// placeholder it created was asked to be removed.
    pub proof fn law_outcome(self)
        requires
            self.wf(),
        ensures
            !unresolved(self.phase()) && !(self.phase() is Finished) ==> located_at(
                self.absolute(),
                self.given_path(),
                self.cwd_path(),
                self.target_path(),
                self.parent_path(),
            ),
            self.phase() is Persisting ==> never_persisted(self.trace()) && ready_to_replace(
                self.job(),
                self.absolute(),
                self.trace(),
            ),
            self.phase() == Phase::<E>::Finished(true) ==> replaced(
                self.job(),
                self.absolute(),
                self.trace(),
            ),
            self.phase() == Phase::<E>::Finished(false) ==> not_replaced(
                self.job(),
                self.absolute(),
                self.trace(),
            ),
            self.phase() is Finished ==> placeholders_removed(self.trace()),
    {
        lemma_outcome(self.job, self.absolute, self.phase, self.trace@);
    }
}

/// Goes on to create the parent directory if there is one (`found`);
/// refuses the destination otherwise.
fn found_parent<E>(found: bool) -> (r: (Phase<E>, Step<E>))
    ensures
        r == locate::<E>(found),
{
    if found {
        advance(Phase::CreatingDirs)
    } else {
        finish(Err(Fault::Path(PathFault::NoParent)))
    }
}

/// Moves on to `next`, asking for its action.
fn advance<E>(next: Phase<E>) -> (r: (Phase<E>, Step<E>))
    requires
        next.awaiting() is Some,
    ensures
        r == go(next),
{
    let a = awaited(&next).unwrap();
    (next, Step::Do(a))
}

/// Ends the session with `result`.
fn finish<E>(result: Result<(), Fault<E>>) -> (r: (Phase<E>, Step<E>))
    ensures
        r == stop(result),
{
    let ok = result.is_ok();
    (Phase::Finished(ok), Step::Finish(result))
}

/// Fails with the error of `ev`, if it is a failure; moves on to `next`
/// otherwise.
fn carry_on<E>(ev: Event<E>, next: Phase<E>) -> (r: (Phase<E>, Step<E>))
    requires
        next.awaiting() is Some,
    ensures
        r == proceed(ev, next),
{
    match ev {
        Event::Failed(e) => finish(Err(Fault::Io(e))),
        Event::Missing(e) => finish(Err(Fault::Io(e))),
        _ => advance(next),
    }
}

/// Ends the session with the error of `ev`, which is a failure.
fn fail<E>(ev: Event<E>) -> (r: (Phase<E>, Step<E>))
    requires
        ev.failure() is Some,
    ensures
        r == abort(ev),
{
    match ev {
        Event::Failed(e) => finish(Err(Fault::Io(e))),
        Event::Missing(e) => finish(Err(Fault::Io(e))),
        _ => {
            proof {
                assert(false);
            }
            finish(Ok(()))
        },
    }
}

/// The phase after the owner taken from `m`.
fn following_owner<E>(job: Job, m: FileMeta) -> (p: Phase<E>)
    ensures
        p == after_owner::<E>(job, m),
{
    match job {
        Job::Copy => Phase::SettingTimes(m),
        Job::Write => Phase::Persisting,
    }
}

/// Appending an action other than the move keeps a record free of it.
proof fn lemma_never_persisted_push(h: Seq<(Action, Reply)>, a: Action, r: Reply)
    requires
        never_persisted(h),
        a != Action::Persist,
    ensures
        never_persisted(h.push((a, r))),
{
    assert forall|i: int| 0 <= i < h.push((a, r)).len() implies #[trigger] h.push((a, r))[i].0
        != Action::Persist by {
        if i < h.len() {
            assert(h.push((a, r))[i] == h[i]);
        }
    }
}

/// Appending anything but a created placeholder keeps every placeholder
/// of a record followed by its removal.
proof fn lemma_placeholders_removed_push(h: Seq<(Action, Reply)>, x: (Action, Reply))
    requires
        placeholders_removed(h),
        x != (Action::CreatePlaceholder, Reply::Done),
    ensures
        placeholders_removed(h.push(x)),
{
    let h2 = h.push(x);
    assert forall|i: int|
        0 <= i < h2.len() && #[trigger] h2[i] == (Action::CreatePlaceholder, Reply::Done) implies exists|
            j: int,
        |
            i < j < h2.len() && (#[trigger] h2[j]).0 == Action::RemovePlaceholder by {
        assert(h2[i] == h[i]);
        let j = choose|j: int| i < j < h.len() && (#[trigger] h[j]).0 == Action::RemovePlaceholder;
        assert(h2[j] == h[j]);
    }
}

/// Asking to remove the placeholder of a write whose earlier record
/// followed every placeholder by its removal leaves every placeholder
/// followed by its removal.
proof fn lemma_placeholder_removal(absolute: bool, h: Seq<(Action, Reply)>, failed: bool, r: Reply)
    requires
        placeholders_removed(absent(absolute)),
        placeholder_settled(absolute, h, failed),
    ensures
        placeholders_removed(h.push((Action::RemovePlaceholder, r))),
{
    let a = absent(absolute);
    let h2 = h.push((Action::RemovePlaceholder, r));
    let n = a.len() as int;
    assert(h[n] == (Action::CreatePlaceholder, Reply::Done)) by {
        let last = h[h.len() - 1].1;
        if !failed && last.is_failure() && h == placeholder_made(absolute).push(
            (Action::ReadPlaceholderPermissions, last),
        ) {
            assert(h[n] == placeholder_made(absolute)[n]);
        } else {
            let x = h[h.len() - 2].1->Mode_0;
            assert(h[n] == placeholder_read(absolute, x)[n]);
            assert(placeholder_read(absolute, x)[n] == placeholder_made(absolute)[n]);
        }
    }
    assert forall|i: int|
        0 <= i < h2.len() && #[trigger] h2[i] == (Action::CreatePlaceholder, Reply::Done) implies exists|
            j: int,
        |
            i < j < h2.len() && (#[trigger] h2[j]).0 == Action::RemovePlaceholder by {
        assert(h2[h2.len() - 1].0 == Action::RemovePlaceholder);
        if i < n {
            let last = h[h.len() - 1].1;
            if !failed && last.is_failure() && h == placeholder_made(absolute).push(
                (Action::ReadPlaceholderPermissions, last),
            ) {
                assert(h2[i] == a[i]);
            } else {
                let x = h[h.len() - 2].1->Mode_0;
                assert(h2[i] == placeholder_read(absolute, x)[i]);
                assert(h2[i] == a[i]);
            }
            let j = choose|j: int| i < j < a.len() && (#[trigger] a[j]).0 == Action::RemovePlaceholder;
            if !failed && last.is_failure() && h == placeholder_made(absolute).push(
                (Action::ReadPlaceholderPermissions, last),
            ) {
                assert(h2[j] == a[j]);
            } else {
                let x = h[h.len() - 2].1->Mode_0;
                assert(h2[j] == placeholder_read(absolute, x)[j]);
                assert(h2[j] == a[j]);
            }
        } else if i < h2.len() - 1 {
            assert(h2[h2.len() - 1].0 == Action::RemovePlaceholder);
        }
    }
}

/// Each step extends the record by the action answered and its outcome,
/// and the new record leads to the new phase.
proof fn lemma_step_keeps_history<E>(
    job: Job,
    absolute: bool,
    phase: Phase<E>,
    ev: Event<E>,
    h: Seq<(Action, Reply)>,
    found: bool,
)
    requires
        history_fits(job, absolute, phase, h),
        phase.awaiting() is Some,
        fits(phase.awaiting().unwrap(), ev),
    ensures
        history_fits(
            job,
            absolute,
            transition(job, absolute, phase, ev, found).0,
            h.push((phase.awaiting().unwrap(), ev.reply())),
        ),
{
    let a = phase.awaiting().unwrap();
    let h2 = h.push((a, ev.reply()));
    if a != Action::Persist {
        lemma_never_persisted_push(h, a, ev.reply());
    }
    if (a, ev.reply()) != (Action::CreatePlaceholder, Reply::Done) && !(phase is RemovingPlaceholder)
        && !(phase is ReadingPlaceholderMode) && !(phase is SettingPlaceholderMode) {
        lemma_placeholders_removed_push(h, (a, ev.reply()));
    }
    assert(h2.drop_last() =~= h);
    match phase {
        Phase::RemovingPlaceholder(d) => {
            lemma_placeholder_removal(absolute, h, d is Some, ev.reply());
            if d is None {
                let k = filled(Job::Write, absolute).len() as int;
                assert(h2[k] == h[k]);
            }
        },
        Phase::CreatingPlaceholder => {
            let k = filled(Job::Write, absolute).len() as int;
            assert(h2[k] == absent(absolute)[k]);
        },
        Phase::SettingTimes(m) => {
            let k = filled(Job::Copy, absolute).len() as int;
            assert(h2[k] == inspected(job, absolute, m)[k]);
        },
        Phase::SettingPermissions(m) => {
            let k = filled(job, absolute).len() as int;
            assert(h2[k] == inspected(job, absolute, m)[k]);
        },
        Phase::SettingOwner(o, m) => {
            let k = filled(job, absolute).len() as int;
            assert(h2[k] == inspected(job, absolute, m)[k]);
        },
        Phase::SettingPlaceholderMode(x) => {
            assert(h2[h2.len() - 2] == (Action::ReadPlaceholderPermissions, Reply::Mode(x)));
        },
        _ => {},
    }
}

/// What a record that leads to a phase says of the outcome.
proof fn lemma_outcome<E>(job: Job, absolute: bool, phase: Phase<E>, h: Seq<(Action, Reply)>)
    requires
        history_fits(job, absolute, phase, h),
    ensures
        phase is Persisting ==> never_persisted(h) && ready_to_replace(job, absolute, h),
        phase == Phase::<E>::Finished(true) ==> replaced(job, absolute, h),
        phase == Phase::<E>::Finished(false) ==> not_replaced(job, absolute, h),
        phase is Finished ==> placeholders_removed(h),
{
}

} // verus!
