//! The decisions of an atomic file write or copy.
//!
//! A destination is never written in place: everything is prepared on a
//! temporary file next to it, which then replaces it in one move. A
//! [`session::Session`] takes every decision of that procedure, one
//! outcome at a time, while its caller performs the file-system actions
//! it asks for.

pub mod history;
pub mod laws;
pub mod meta;
pub mod paths;
pub mod phase;
pub mod protocol;
pub mod session;

pub use meta::{FileMeta, Owner, Stamp};
pub use phase::Phase;
pub use protocol::{Action, Event, Fault, FaultKind, Job, PathFault, Reply, Step};
pub use session::Session;
