//! A small bytecode virtual machine.
//!
//! The machine decodes a flat instruction stream, executes typed stack and
//! register operations, and cooperatively multiplexes several independent
//! execution contexts ("processes") on a single logical thread.
//!
//! The crate is organised leaves-first:
//! - [`state`] and [`fault`] hold the process lifecycle states and the
//!   classified error conditions;
//! - [`bytes`] defines the big-endian packing that the program encoding,
//!   the execution stack and the memory arena share, and [`numeric`] the
//!   truncated, wrapping signed division;
//! - [`instrs`] defines the one-byte opcode space and its validated
//!   decoder;
//! - [`regs`] is the width-partitioned register file;
//! - [`process`] owns one execution context (program counter, execution
//!   stack, call stack, registers, state) and its opcode primitives, with
//!   the arithmetic in [`ops`];
//! - [`decoder`] resolves self-describing operands — five addressing modes
//!   over the program stream, a bounds-checked memory arena, and the
//!   register file;
//! - [`vm`] is the fetch-decode-execute dispatch loop, specified by its
//!   operational semantics [`vm::step_spec`];
//! - [`virtual_machine`] is the cooperative scheduler;
//! - [`laws`] states and proves the general laws of the execution stack.

use vstd::prelude::*;

pub mod bytes;
pub mod decoder;
pub mod fault;
pub mod instrs;
pub mod laws;
pub mod numeric;
pub mod ops;
pub mod process;
pub mod regs;
pub mod state;
pub mod virtual_machine;
pub mod vm;

pub use fault::Fault;
pub use instrs::Instr;
pub use process::Process;
pub use regs::Regs;
pub use regs::RegsId;
pub use state::State;
pub use virtual_machine::VirtualMachine;
pub use vm::evaluate_instr;
pub use vm::execute_one;
pub use vm::run;
pub use vm::StepEvent;

verus! {

} // verus!
