//! Forking a single-threaded process and reaping its child, with the
//! decisions of the protocol verified and the system calls left to the caller.
pub mod process;
pub mod status;

pub use process::{
    advance, ensure_single_threaded, fork, fork_join, is_single_threaded, Child, Event, OsError, Stage,
};
pub use status::ExitStatus;
