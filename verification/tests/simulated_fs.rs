//! Sessions driven against a small in-memory file system, to follow whole
//! writes and copies from the caller's point of view.

use std::collections::{HashMap, HashSet};

use write_atomic::{Action, Event, Fault, FileMeta, Job, Owner, Session, Stamp, Step};

#[derive(Clone, Debug)]
struct Node {
    data: Vec<u8>,
    meta: FileMeta,
}

/// A file system of absolute, '/'-separated paths.
struct Fs {
    files: HashMap<String, Node>,
    dirs: HashSet<String>,
    cwd: String,
    clock: i64,
    temps: u32,
    user: Owner,
}

fn parent_of(p: &str) -> Option<String> {
    if p == "/" {
        return None;
    }
    let trimmed = p.trim_end_matches('/');
    match trimmed.rfind('/') {
        Some(0) => Some("/".to_string()),
        Some(i) => Some(trimmed[..i].to_string()),
        None => Some(String::new()),
    }
}

impl Fs {
    fn new() -> Fs {
        let mut dirs = HashSet::new();
        dirs.insert("/".to_string());
        dirs.insert("/tmp".to_string());
        Fs {
            files: HashMap::new(),
            dirs,
            cwd: "/tmp".to_string(),
            clock: 1_000,
            temps: 0,
            user: Owner { uid: 1000, gid: 1000 },
        }
    }

    fn tick(&mut self) -> Stamp {
        self.clock += 1;
        Stamp { seconds: self.clock, nanos: 0 }
    }

    fn fresh(&mut self, mode: u32) -> FileMeta {
        let now = self.tick();
        FileMeta { mode, owner: Some(self.user), accessed: now, modified: now }
    }

    fn put(&mut self, path: &str, data: &[u8], meta: FileMeta) {
        self.files.insert(path.to_string(), Node { data: data.to_vec(), meta });
    }

    fn read(&self, path: &str) -> Option<Vec<u8>> {
        self.files.get(path).map(|n| n.data.clone())
    }

    fn meta(&self, path: &str) -> Option<FileMeta> {
        self.files.get(path).map(|n| n.meta)
    }
}

/// What the caller of a session keeps while performing its actions.
struct Run<'a> {
    fs: &'a mut Fs,
    temp: Option<String>,
    source: Option<String>,
    data: Vec<u8>,
    actions: Vec<Action>,
}

const ENOENT: i32 = 2;
const EISDIR: i32 = 21;

impl<'a> Run<'a> {
    fn missing(&self, path: &str) -> Event<i32> {
        if self.fs.files.contains_key(path) {
            Event::Failed(EISDIR)
        } else {
            Event::Missing(ENOENT)
        }
    }

    fn temp_node(&mut self) -> &mut Node {
        let t = self.temp.clone().unwrap();
        self.fs.files.get_mut(&t).unwrap()
    }

    fn perform(&mut self, action: Action, given: &str, target: &str, parent: &str) -> Event<i32> {
        self.actions.push(action);
        match action {
            Action::CheckIsDir => Event::Answer(self.fs.dirs.contains(given)),
            Action::ReadCurrentDir => Event::Dir(self.fs.cwd.clone()),
            Action::CreateParentDirs => {
                let mut p = Some(parent.to_string());
                while let Some(d) = p {
                    p = parent_of(&d);
                    self.fs.dirs.insert(d);
                }
                Event::Done
            },
            Action::CreateTemp => {
                self.fs.temps += 1;
                let t = format!("{}/.tmp{}", parent.trim_end_matches('/'), self.fs.temps);
                let m = self.fs.fresh(0o100600);
                self.fs.put(&t, b"", m);
                self.temp = Some(t);
                Event::Done
            },
            Action::CopyContents => {
                let src = self.source.clone().unwrap();
                match self.fs.read(&src) {
                    Some(bytes) => {
                        let now = self.fs.tick();
                        let n = self.temp_node();
                        n.data = bytes;
                        n.meta.modified = now;
                        Event::Done
                    },
                    None => self.missing(&src),
                }
            },
            Action::WriteData => {
                let data = self.data.clone();
                let now = self.fs.tick();
                let n = self.temp_node();
                n.data = data;
                n.meta.modified = now;
                Event::Done
            },
            Action::Flush => Event::Done,
            Action::ReadSourceMetadata => {
                let src = self.source.clone().unwrap();
                match self.fs.meta(&src) {
                    Some(m) => Event::Metadata(m),
                    None => self.missing(&src),
                }
            },
            Action::ReadDestMetadata => match self.fs.meta(target) {
                Some(m) => Event::Metadata(m),
                None => self.missing(target),
            },
            Action::SetPermissions(mode) => {
                self.temp_node().meta.mode = mode;
                Event::Done
            },
            Action::SetOwner(o) => {
                self.temp_node().meta.owner = Some(o);
                Event::Done
            },
            Action::SetTimes(a, m) => {
                let n = self.temp_node();
                n.meta.accessed = a;
                n.meta.modified = m;
                Event::Done
            },
            Action::CreatePlaceholder => {
                let m = self.fs.fresh(0o100644);
                self.fs.put(target, b"", m);
                Event::Done
            },
            Action::ReadPlaceholderPermissions => match self.fs.meta(target) {
                Some(m) => Event::Mode(m.mode),
                None => Event::Missing(ENOENT),
            },
            Action::RemovePlaceholder => {
                self.fs.files.remove(target);
                Event::Done
            },
            Action::Persist => {
                let t = self.temp.take().unwrap();
                let node = self.fs.files.remove(&t).unwrap();
                self.fs.files.insert(target.to_string(), node);
                Event::Done
            },
        }
    }
}

fn run(fs: &mut Fs, job: Job, dst: &str, source: Option<&str>, data: &[u8]) -> Result<(), Fault<i32>> {
    let (mut session, mut action) = Session::<i32>::new(job, dst.to_string());
    let mut r = Run {
        fs,
        temp: None,
        source: source.map(|s| s.to_string()),
        data: data.to_vec(),
        actions: Vec::new(),
    };
    loop {
        let given = session.given().to_string();
        let target = session.target().to_string();
        let parent = session.parent_dir().unwrap_or("").to_string();
        let ev = r.perform(action, &given, &target, &parent);
        assert!(session.accepts(&ev));
        match session.resume(ev) {
            Step::Do(a) => action = a,
            Step::Finish(res) => {
                // A finished session leaves no temporary file behind.
                if let Some(t) = r.temp.take() {
                    r.fs.files.remove(&t);
                }
                // Nothing but the last action ever replaces the destination.
                let persists = r.actions.iter().filter(|a| **a == Action::Persist).count();
                assert!(persists <= 1);
                if persists == 1 {
                    assert_eq!(r.actions.last(), Some(&Action::Persist));
                }
                return res;
            },
        }
    }
}

fn write_file(fs: &mut Fs, dst: &str, data: &[u8]) -> Result<(), Fault<i32>> {
    run(fs, Job::Write, dst, None, data)
}

fn copy_file(fs: &mut Fs, src: &str, dst: &str) -> Result<(), Fault<i32>> {
    run(fs, Job::Copy, dst, Some(src), b"")
}

#[test]
fn simulated_write_then_copy() {
    let mut fs = Fs::new();
    let path = "/tmp/write-atomic-test.txt";

    assert!(write_file(&mut fs, path, b"This is the first write!").is_ok());
    assert_eq!(fs.read(path).unwrap(), b"This is the first write!");

    assert!(write_file(&mut fs, path, b"This is the second write!").is_ok());
    assert_eq!(fs.read(path).unwrap(), b"This is the second write!");

    let path2 = "/tmp/copy-atomic-test.txt";
    assert!(copy_file(&mut fs, path, path2).is_ok());
    assert_eq!(fs.read(path2).unwrap(), b"This is the second write!");

    // Only the two files remain: no temporary or placeholder is left.
    assert_eq!(fs.files.len(), 2);
}

#[test]
fn simulated_copy_keeps_metadata_then_rewrite_keeps_permissions() {
    let mut fs = Fs::new();
    let src = "/src/LICENSE";
    fs.dirs.insert("/src".to_string());
    let src_meta = FileMeta {
        mode: 0o100640,
        owner: Some(Owner { uid: 33, gid: 44 }),
        accessed: Stamp { seconds: 10, nanos: 1 },
        modified: Stamp { seconds: 20, nanos: 2 },
    };
    fs.put(src, b"license text", src_meta);
    let dst = "/tmp/LICENSE-copy.txt";

    assert!(copy_file(&mut fs, src, dst).is_ok());
    let m2 = fs.meta(dst).unwrap();
    assert_eq!(src_meta.mode, m2.mode, "Copied permissions not equal.");
    assert_eq!(src_meta.owner, m2.owner, "Copied ownership not equal.");
    assert_eq!(src_meta.modified, m2.modified, "Copied mtimes not equal.");

    assert!(write_file(&mut fs, dst, b"Testing a rewrite!").is_ok());
    let m2 = fs.meta(dst).unwrap();
    assert_eq!(fs.read(dst).unwrap().len(), 18, "Unexpected file length.");
    assert_eq!(src_meta.mode, m2.mode, "Copied permissions not equal.");
    assert_eq!(src_meta.owner, m2.owner, "Copied ownership not equal.");
    assert_ne!(src_meta.modified, m2.modified, "Mtimes shouldn't match anymore!");
}

#[test]
fn simulated_relative_destination_and_missing_parents() {
    let mut fs = Fs::new();
    assert!(write_file(&mut fs, "a/b/c.txt", b"xyz").is_ok());
    assert_eq!(fs.read("/tmp/a/b/c.txt").unwrap(), b"xyz");
    assert!(fs.dirs.contains("/tmp/a/b"));
    // A new file gets the default permissions of a file created there.
    assert_eq!(fs.meta("/tmp/a/b/c.txt").unwrap().mode, 0o100644);
}

#[test]
fn simulated_failures_leave_destination_alone() {
    let mut fs = Fs::new();
    let dst = "/tmp/kept.txt";
    assert!(write_file(&mut fs, dst, b"old").is_ok());

    // A directory is refused.
    assert!(matches!(write_file(&mut fs, "/tmp", b"new"), Err(Fault::Path(_))));
    // A missing source fails the copy and leaves the destination as it was.
    assert!(matches!(copy_file(&mut fs, "/nowhere", dst), Err(Fault::Io(ENOENT))));
    assert_eq!(fs.read(dst).unwrap(), b"old");
    assert_eq!(fs.files.len(), 1);
}
