use write_atomic::protocol::outcome_fits;
use write_atomic::{
    Action, Event, Fault, FaultKind, FileMeta, Job, Owner, PathFault, Session, Stamp, Step,
};

fn meta(mode: u32, owner: Option<Owner>) -> FileMeta {
    FileMeta {
        mode,
        owner,
        accessed: Stamp { seconds: 1_700_000_000, nanos: 5 },
        modified: Stamp { seconds: 1_600_000_000, nanos: 7 },
    }
}

fn next(s: &mut Session<u32>, ev: Event<u32>) -> Step<u32> {
    assert!(s.accepts(&ev));
    s.resume(ev)
}

fn expect_do(step: Step<u32>, action: Action) {
    match step {
        Step::Do(a) => assert_eq!(a, action),
        Step::Finish(r) => panic!("finished early: {:?}", r),
    }
}

fn expect_io_error(step: Step<u32>, code: u32) {
    match step {
        Step::Finish(Err(Fault::Io(e))) => assert_eq!(e, code),
        other => panic!("expected the error {}: {:?}", code, other),
    }
}

/// Drives a session through the path checks and the temporary file.
fn staged(job: Job, absolute: bool) -> Session<u32> {
    let dst = if absolute { "/srv/data/dst.txt" } else { "out/dst.txt" };
    let (mut s, first) = Session::<u32>::new(job, dst.to_string());
    assert_eq!(first, Action::CheckIsDir);
    assert_eq!(s.given(), dst);
    assert_eq!(s.parent_dir(), None);
    let step = next(&mut s, Event::Answer(false));
    if !absolute {
        expect_do(step, Action::ReadCurrentDir);
        let step = next(&mut s, Event::Dir("/home/u".to_string()));
        assert_eq!(s.target(), "/home/u/out/dst.txt");
        assert_eq!(s.parent_dir(), Some("/home/u/out"));
        expect_do(step, Action::CreateParentDirs);
    } else {
        assert_eq!(s.target(), "/srv/data/dst.txt");
        assert_eq!(s.parent_dir(), Some("/srv/data"));
        expect_do(step, Action::CreateParentDirs);
    }
    expect_do(next(&mut s, Event::Done), Action::CreateTemp);
    let after = match job {
        Job::Copy => Action::CopyContents,
        Job::Write => Action::WriteData,
    };
    expect_do(next(&mut s, Event::Done), after);
    s
}

#[test]
fn copy_carries_permissions_owner_and_times() {
    let mut s = staged(Job::Copy, true);
    expect_do(next(&mut s, Event::Done), Action::ReadSourceMetadata);
    let m = meta(0o100640, Some(Owner { uid: 1000, gid: 100 }));
    expect_do(next(&mut s, Event::Metadata(m)), Action::SetPermissions(0o100640));
    expect_do(next(&mut s, Event::Done), Action::SetOwner(Owner { uid: 1000, gid: 100 }));
    expect_do(next(&mut s, Event::Done), Action::SetTimes(m.accessed, m.modified));
    expect_do(next(&mut s, Event::Done), Action::Persist);
    assert!(matches!(next(&mut s, Event::Done), Step::Finish(Ok(()))));
    assert_eq!(s.awaiting(), None);
}

#[test]
fn copy_without_owner_skips_chown() {
    let mut s = staged(Job::Copy, false);
    expect_do(next(&mut s, Event::Done), Action::ReadSourceMetadata);
    let m = meta(0o100600, None);
    expect_do(next(&mut s, Event::Metadata(m)), Action::SetPermissions(0o100600));
    expect_do(next(&mut s, Event::Done), Action::SetTimes(m.accessed, m.modified));
}

#[test]
fn failing_to_set_times_is_ignored() {
    let mut s = staged(Job::Copy, true);
    expect_do(next(&mut s, Event::Done), Action::ReadSourceMetadata);
    let m = meta(0o100644, None);
    expect_do(next(&mut s, Event::Metadata(m)), Action::SetPermissions(0o100644));
    expect_do(next(&mut s, Event::Done), Action::SetTimes(m.accessed, m.modified));
    expect_do(next(&mut s, Event::Failed(9)), Action::Persist);
    assert!(matches!(next(&mut s, Event::Done), Step::Finish(Ok(()))));
}

#[test]
fn write_over_existing_file_keeps_its_permissions_and_owner_only() {
    let mut s = staged(Job::Write, true);
    expect_do(next(&mut s, Event::Done), Action::Flush);
    expect_do(next(&mut s, Event::Done), Action::ReadDestMetadata);
    let m = meta(0o100755, Some(Owner { uid: 0, gid: 0 }));
    expect_do(next(&mut s, Event::Metadata(m)), Action::SetPermissions(0o100755));
    expect_do(next(&mut s, Event::Done), Action::SetOwner(Owner { uid: 0, gid: 0 }));
    // No times are carried over by a write.
    expect_do(next(&mut s, Event::Done), Action::Persist);
    assert!(matches!(next(&mut s, Event::Done), Step::Finish(Ok(()))));
}

#[test]
fn write_to_new_file_syncs_placeholder_permissions() {
    let mut s = staged(Job::Write, true);
    expect_do(next(&mut s, Event::Done), Action::Flush);
    expect_do(next(&mut s, Event::Done), Action::ReadDestMetadata);
    expect_do(next(&mut s, Event::Missing(2)), Action::CreatePlaceholder);
    expect_do(next(&mut s, Event::Done), Action::ReadPlaceholderPermissions);
    expect_do(next(&mut s, Event::Mode(0o100644)), Action::SetPermissions(0o100644));
    expect_do(next(&mut s, Event::Done), Action::RemovePlaceholder);
    expect_do(next(&mut s, Event::Failed(13)), Action::Persist);
    assert!(matches!(next(&mut s, Event::Done), Step::Finish(Ok(()))));
}

#[test]
fn placeholder_that_cannot_be_created_is_skipped() {
    let mut s = staged(Job::Write, true);
    expect_do(next(&mut s, Event::Done), Action::Flush);
    expect_do(next(&mut s, Event::Done), Action::ReadDestMetadata);
    expect_do(next(&mut s, Event::Missing(2)), Action::CreatePlaceholder);
    expect_do(next(&mut s, Event::Failed(13)), Action::Persist);
    assert!(matches!(next(&mut s, Event::Done), Step::Finish(Ok(()))));
}

#[test]
fn unreadable_placeholder_is_still_removed() {
    let mut s = staged(Job::Write, true);
    expect_do(next(&mut s, Event::Done), Action::Flush);
    expect_do(next(&mut s, Event::Done), Action::ReadDestMetadata);
    expect_do(next(&mut s, Event::Missing(2)), Action::CreatePlaceholder);
    expect_do(next(&mut s, Event::Done), Action::ReadPlaceholderPermissions);
    expect_do(next(&mut s, Event::Missing(2)), Action::RemovePlaceholder);
    expect_do(next(&mut s, Event::Done), Action::Persist);
}

#[test]
fn placeholder_permission_error_is_reported_after_removal() {
    let mut s = staged(Job::Write, false);
    expect_do(next(&mut s, Event::Done), Action::Flush);
    expect_do(next(&mut s, Event::Done), Action::ReadDestMetadata);
    expect_do(next(&mut s, Event::Missing(2)), Action::CreatePlaceholder);
    expect_do(next(&mut s, Event::Done), Action::ReadPlaceholderPermissions);
    expect_do(next(&mut s, Event::Mode(0o100600)), Action::SetPermissions(0o100600));
    expect_do(next(&mut s, Event::Failed(1)), Action::RemovePlaceholder);
    expect_io_error(next(&mut s, Event::Failed(5)), 1);
    assert_eq!(s.awaiting(), None);
}

#[test]
fn directory_destination_is_refused() {
    for job in [Job::Write, Job::Copy] {
        let (mut s, _) = Session::<u32>::new(job, "/srv".to_string());
        match next(&mut s, Event::Answer(true)) {
            Step::Finish(Err(Fault::Path(p))) => {
                assert_eq!(p, PathFault::IsDirectory);
                assert_eq!(p.kind(), FaultKind::InvalidInput);
                assert_eq!(p.message(), "Path cannot be a directory.");
            },
            other => panic!("{:?}", other),
        }
        assert_eq!(s.awaiting(), None);
    }
}

#[test]
fn destination_without_parent_is_refused() {
    let (mut s, _) = Session::<u32>::new(Job::Write, "/".to_string());
    match next(&mut s, Event::Answer(false)) {
        Step::Finish(Err(Fault::Path(p))) => {
            assert_eq!(p, PathFault::NoParent);
            assert_eq!(p.kind(), FaultKind::NotFound);
            assert_eq!(p.message(), "Path must have a parent directory.");
        },
        other => panic!("{:?}", other),
    }
}

#[test]
fn current_dir_failure_bubbles_up() {
    let (mut s, _) = Session::<u32>::new(Job::Copy, "relative.txt".to_string());
    expect_do(next(&mut s, Event::Answer(false)), Action::ReadCurrentDir);
    expect_io_error(next(&mut s, Event::Failed(21)), 21);
}

#[test]
fn every_required_failure_bubbles_up() {
    // Fail the n-th required action of a write to an existing file.
    let plan = [
        Action::CreateParentDirs,
        Action::CreateTemp,
        Action::WriteData,
        Action::Flush,
        Action::ReadDestMetadata,
        Action::SetPermissions(0o100644),
        Action::SetOwner(Owner { uid: 7, gid: 8 }),
        Action::Persist,
    ];
    for fail_at in 0..plan.len() {
        let (mut s, _) = Session::<u32>::new(Job::Write, "/srv/f".to_string());
        let mut step = next(&mut s, Event::Answer(false));
        for (i, action) in plan.iter().enumerate() {
            expect_do(step, *action);
            if i == fail_at {
                expect_io_error(next(&mut s, Event::Failed(100 + i as u32)), 100 + i as u32);
                break;
            }
            let ev = match action {
                Action::ReadDestMetadata => {
                    Event::Metadata(meta(0o100644, Some(Owner { uid: 7, gid: 8 })))
                },
                _ => Event::Done,
            };
            step = next(&mut s, ev);
        }
        assert_eq!(s.awaiting(), None);
    }
}

#[test]
fn copy_failures_bubble_up() {
    let mut s = staged(Job::Copy, true);
    expect_io_error(next(&mut s, Event::Failed(3)), 3);

    let mut s = staged(Job::Copy, true);
    expect_do(next(&mut s, Event::Done), Action::ReadSourceMetadata);
    // A missing source is an error like any other.
    expect_io_error(next(&mut s, Event::Missing(2)), 2);
}

#[test]
fn destination_metadata_error_other_than_missing_bubbles_up() {
    let mut s = staged(Job::Write, true);
    expect_do(next(&mut s, Event::Done), Action::Flush);
    expect_do(next(&mut s, Event::Done), Action::ReadDestMetadata);
    expect_io_error(next(&mut s, Event::Failed(13)), 13);
}

#[test]
fn outcomes_must_fit_the_action() {
    let (s, _) = Session::<u32>::new(Job::Write, "/srv/f".to_string());
    assert!(s.accepts(&Event::Answer(false)));
    assert!(!s.accepts(&Event::Done));
    assert!(!s.accepts(&Event::Failed(1)));
    assert!(outcome_fits(Action::ReadDestMetadata, &Event::<u32>::Missing(2)));
    assert!(outcome_fits(Action::ReadDestMetadata, &Event::<u32>::Metadata(meta(0, None))));
    assert!(!outcome_fits(Action::ReadDestMetadata, &Event::<u32>::Mode(0)));
    assert!(outcome_fits(Action::ReadPlaceholderPermissions, &Event::<u32>::Mode(0)));
    assert!(!outcome_fits(Action::Persist, &Event::<u32>::Answer(true)));
    assert!(outcome_fits(Action::Persist, &Event::<u32>::Failed(1)));
}

#[test]
fn finished_session_accepts_nothing() {
    let (mut s, _) = Session::<u32>::new(Job::Copy, "/srv".to_string());
    let _ = next(&mut s, Event::Answer(true));
    assert_eq!(s.awaiting(), None);
    assert!(!s.accepts(&Event::Done));
    assert!(!s.accepts(&Event::Answer(false)));
}

#[test]
fn relative_destination_resolves_against_current_dir() {
    let (mut s, _) = Session::<u32>::new(Job::Write, "a/b/c.txt".to_string());
    expect_do(next(&mut s, Event::Answer(false)), Action::ReadCurrentDir);
    assert!(!s.accepts(&Event::Done));
    assert!(s.accepts(&Event::Dir("/work".to_string())));
    expect_do(next(&mut s, Event::Dir("/work".to_string())), Action::CreateParentDirs);
    assert_eq!(s.given(), "a/b/c.txt");
    assert_eq!(s.target(), "/work/a/b/c.txt");
    assert_eq!(s.parent_dir(), Some("/work/a/b"));
}

#[test]
fn relative_destination_without_parent_is_refused() {
    // Joined onto the root, an empty path resolves to the root itself.
    let (mut s, _) = Session::<u32>::new(Job::Copy, String::new());
    expect_do(next(&mut s, Event::Answer(false)), Action::ReadCurrentDir);
    match next(&mut s, Event::Dir("/".to_string())) {
        Step::Finish(Err(Fault::Path(p))) => assert_eq!(p, PathFault::NoParent),
        other => panic!("{:?}", other),
    }
}
