//! A reentrancy guard around one shared exclusive lock: the lock is taken once
//! by the outermost caller, many logical scopes nest beneath it, and it is
//! released once all of them are closed.

pub mod env;
pub mod laws;

pub use env::{GuardModel, ThreadState, ThreadStateError};
