# write_atomic

Atomic file writes and copies. The new contents, permissions, ownership
(and, for a copy, file times) are prepared on a temporary file in the
destination's directory, which is then moved over the destination in one
step. The one thing done at the destination's name before that move is a
write's placeholder: where no file exists there yet, an empty file is
briefly created there to learn the default permissions, then removed.

- `src/` is the verified library. `session::Session` takes every decision
  of a write or a copy, one outcome at a time: where the destination and
  its directory are (the given path, resolved with std's `Path`), which
  file-system action comes next, which failures end the job and with which
  error, which are ignored, and when the destination may be replaced. Its
  record of actions and outcomes is what the laws in `src/laws.rs` and
  `Session::law_outcome` speak of. Paths are held as UTF-8 strings.
- `app/` performs the actions with `std::fs`, `tempfile` and `filetime`,
  and offers `write_file` and `copy_file`. Ownership is carried over on
  Unix; elsewhere only the read-only flag stands for the permissions.
- `tests/` drives sessions step by step, and against an in-memory file
  system.
