//! Lifecycle states of a process.

use vstd::prelude::*;

verus! {

/// The lifecycle state of a [`crate::process::Process`].
///
/// A process is created `New` (or `Waiting`, when it is spawned by a running
/// process), becomes `Running` when the dispatch loop picks it up, moves to
/// `Waiting` on a cooperative yield, and reaches `Terminated` through a
/// `halt` instruction or by running past the end of its program.  A
/// `Terminated` process is never selected again.
#[derive(Debug, Clone, Copy, Eq, PartialEq, Structural)]
pub enum State {
    New,
    Running,
    Waiting,
    Ready,
    Terminated,
}

} // verus!
