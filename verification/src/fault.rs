//! Classified error conditions.

use vstd::prelude::*;

verus! {

/// A classified error condition that aborts a run.
///
/// Every malformed-bytecode condition is reported as one of these values
/// rather than as an unrecoverable abort.  A fault always aborts the whole
/// run, not just the offending process.
#[derive(Debug, Clone, Copy, Eq, PartialEq, Structural)]
pub enum Fault {
    /// The execution stack or the call stack held fewer bytes than an
    /// instruction needed to pop.
    StackUnderflow,
    /// A fetched byte is not a recognised opcode, or the opcode is not
    /// meaningful where it was met (a `spawn` outside a scheduler).
    InvalidOpcode,
    /// An operand could not be resolved: a tag byte that is not an operand
    /// tag, a size byte that is not a size tag, an address outside the
    /// memory arena, or a register index outside the register file.
    InvalidOperand,
    /// The right operand of a division or remainder instruction was zero.
    DivideByZero,
    /// An operand needed more program bytes than remain behind the program
    /// counter.
    ProgramCounterOutOfBounds,
    /// More than one process was simultaneously `Waiting` when the scheduler
    /// had to pick a successor.
    SchedulerInvariantViolated,
}

} // verus!
