//! The fetch-decode-execute dispatch loop.
//!
//! [`step_spec`] is the operational semantics of the machine: what one
//! fetch-decode-execute step does to a process and the memory arena, or
//! which fault it reports.  [`execute_one`] is the verified single-step
//! primitive, and [`run`] drives one process to completion.
//!
//! A step can surface two events beside plain completion: a `spawn`
//! instruction hands the decoded target up to the scheduler, and a
//! floating-point arithmetic instruction is deferred to the embedder, which
//! implements it over the public stack primitives.  The single-process
//! [`run`] loop has no scheduler and no floating-point unit, so it reports
//! both as `InvalidOpcode` faults, exactly as it reports an unrecognised
//! opcode byte.

use vstd::prelude::*;

use crate::bytes::be_bytes_u16;
use crate::bytes::be_bytes_u32;
use crate::bytes::be_bytes_u64;
use crate::decoder::be_bytes_n;
use crate::decoder::mem_read_spec;
use crate::decoder::mem_write_spec;
use crate::decoder::read_value_spec;
use crate::fault::Fault;
use crate::instrs::decode_byte;
use crate::instrs::Instr;
use crate::numeric::sdiv_i8;
use crate::numeric::sdiv_i16;
use crate::numeric::sdiv_i32;
use crate::numeric::sdiv_i64;
use crate::numeric::srem_i8;
use crate::numeric::srem_i16;
use crate::numeric::srem_i32;
use crate::numeric::srem_i64;
use crate::process::second_u8;
use crate::process::second_u16;
use crate::process::second_u32;
use crate::process::second_u64;
use crate::process::top_u8;
use crate::process::top_u16;
use crate::process::top_u32;
use crate::process::top_u64;
use crate::process::ProcView;
use crate::process::Process;
use crate::state::State;
use vstd::wrapping::u8_specs;
use vstd::wrapping::u16_specs;
use vstd::wrapping::u32_specs;
use vstd::wrapping::u64_specs;
use vstd::wrapping::i8_specs;
use vstd::wrapping::i16_specs;
use vstd::wrapping::i32_specs;
use vstd::wrapping::i64_specs;

verus! {

/// What one dispatched instruction surfaced beside its effect.
#[derive(Debug, Clone, Copy, PartialEq, Eq, Structural)]
pub enum StepEvent {
    /// The instruction ran to completion.
    Ran,
    /// A `spawn` instruction, carrying the decoded target: the scheduler
    /// creates a child there and switches to it.
    Spawn(u64),
    /// A floating-point arithmetic or comparison instruction: the verified
    /// core defers these to the embedder, which implements them over the
    /// public stack primitives before stepping on.
    Float(Instr),
}


/// One binary 8-bit stack operation: pop two values, push `f` of them.
pub open spec fn binop_spec_8(
    p: ProcView,
    mem: Seq<u8>,
    f: spec_fn(u8, u8) -> u8,
) -> Result<(ProcView, Seq<u8>, StepEvent), Fault> {
    if p.stack.len() < 2 {
        Err(Fault::StackUnderflow)
    } else {
        Ok(
            (
                ProcView {
                    stack: p.stack.subrange(0, p.stack.len() - 2) + seq![f(second_u8(p.stack), top_u8(p.stack))],
                    ..p
                },
                mem,
                StepEvent::Ran,
            ),
        )
    }
}

/// One unary 8-bit stack operation: pop one value, push `f` of it.
pub open spec fn unop_spec_8(
    p: ProcView,
    mem: Seq<u8>,
    f: spec_fn(u8) -> u8,
) -> Result<(ProcView, Seq<u8>, StepEvent), Fault> {
    if p.stack.len() < 1 {
        Err(Fault::StackUnderflow)
    } else {
        Ok(
            (
                ProcView {
                    stack: p.stack.subrange(0, p.stack.len() - 1) + seq![f(top_u8(p.stack))],
                    ..p
                },
                mem,
                StepEvent::Ran,
            ),
        )
    }
}

/// One 8-bit comparison: pop two values, push one byte, `1` for true.
pub open spec fn cmp_spec_8(
    p: ProcView,
    mem: Seq<u8>,
    f: spec_fn(u8, u8) -> bool,
) -> Result<(ProcView, Seq<u8>, StepEvent), Fault> {
    if p.stack.len() < 2 {
        Err(Fault::StackUnderflow)
    } else {
        Ok(
            (
                ProcView {
                    stack: p.stack.subrange(0, p.stack.len() - 2) + seq![
                        (if f(second_u8(p.stack), top_u8(p.stack)) {
                            1u8
                        } else {
                            0u8
                        }),
                    ],
                    ..p
                },
                mem,
                StepEvent::Ran,
            ),
        )
    }
}

/// One binary 16-bit stack operation: pop two values, push `f` of them.
pub open spec fn binop_spec_16(
    p: ProcView,
    mem: Seq<u8>,
    f: spec_fn(u16, u16) -> u16,
) -> Result<(ProcView, Seq<u8>, StepEvent), Fault> {
    if p.stack.len() < 4 {
        Err(Fault::StackUnderflow)
    } else {
        Ok(
            (
                ProcView {
                    stack: p.stack.subrange(0, p.stack.len() - 4) + be_bytes_u16(f(second_u16(p.stack), top_u16(p.stack))),
                    ..p
                },
                mem,
                StepEvent::Ran,
            ),
        )
    }
}

/// One unary 16-bit stack operation: pop one value, push `f` of it.
pub open spec fn unop_spec_16(
    p: ProcView,
    mem: Seq<u8>,
    f: spec_fn(u16) -> u16,
) -> Result<(ProcView, Seq<u8>, StepEvent), Fault> {
    if p.stack.len() < 2 {
        Err(Fault::StackUnderflow)
    } else {
        Ok(
            (
                ProcView {
                    stack: p.stack.subrange(0, p.stack.len() - 2) + be_bytes_u16(f(top_u16(p.stack))),
                    ..p
                },
                mem,
                StepEvent::Ran,
            ),
        )
    }
}

/// One 16-bit comparison: pop two values, push one byte, `1` for true.
pub open spec fn cmp_spec_16(
    p: ProcView,
    mem: Seq<u8>,
    f: spec_fn(u16, u16) -> bool,
) -> Result<(ProcView, Seq<u8>, StepEvent), Fault> {
    if p.stack.len() < 4 {
        Err(Fault::StackUnderflow)
    } else {
        Ok(
            (
                ProcView {
                    stack: p.stack.subrange(0, p.stack.len() - 4) + seq![
                        (if f(second_u16(p.stack), top_u16(p.stack)) {
                            1u8
                        } else {
                            0u8
                        }),
                    ],
                    ..p
                },
                mem,
                StepEvent::Ran,
            ),
        )
    }
}

/// One binary 32-bit stack operation: pop two values, push `f` of them.
pub open spec fn binop_spec_32(
    p: ProcView,
    mem: Seq<u8>,
    f: spec_fn(u32, u32) -> u32,
) -> Result<(ProcView, Seq<u8>, StepEvent), Fault> {
    if p.stack.len() < 8 {
        Err(Fault::StackUnderflow)
    } else {
        Ok(
            (
                ProcView {
                    stack: p.stack.subrange(0, p.stack.len() - 8) + be_bytes_u32(f(second_u32(p.stack), top_u32(p.stack))),
                    ..p
                },
                mem,
                StepEvent::Ran,
            ),
        )
    }
}

/// One unary 32-bit stack operation: pop one value, push `f` of it.
pub open spec fn unop_spec_32(
    p: ProcView,
    mem: Seq<u8>,
    f: spec_fn(u32) -> u32,
) -> Result<(ProcView, Seq<u8>, StepEvent), Fault> {
    if p.stack.len() < 4 {
        Err(Fault::StackUnderflow)
    } else {
        Ok(
            (
                ProcView {
                    stack: p.stack.subrange(0, p.stack.len() - 4) + be_bytes_u32(f(top_u32(p.stack))),
                    ..p
                },
                mem,
                StepEvent::Ran,
            ),
        )
    }
}

/// One 32-bit comparison: pop two values, push one byte, `1` for true.
pub open spec fn cmp_spec_32(
    p: ProcView,
    mem: Seq<u8>,
    f: spec_fn(u32, u32) -> bool,
) -> Result<(ProcView, Seq<u8>, StepEvent), Fault> {
    if p.stack.len() < 8 {
        Err(Fault::StackUnderflow)
    } else {
        Ok(
            (
                ProcView {
                    stack: p.stack.subrange(0, p.stack.len() - 8) + seq![
                        (if f(second_u32(p.stack), top_u32(p.stack)) {
                            1u8
                        } else {
                            0u8
                        }),
                    ],
                    ..p
                },
                mem,
                StepEvent::Ran,
            ),
        )
    }
}

/// One binary 64-bit stack operation: pop two values, push `f` of them.
pub open spec fn binop_spec_64(
    p: ProcView,
    mem: Seq<u8>,
    f: spec_fn(u64, u64) -> u64,
) -> Result<(ProcView, Seq<u8>, StepEvent), Fault> {
    if p.stack.len() < 16 {
        Err(Fault::StackUnderflow)
    } else {
        Ok(
            (
                ProcView {
                    stack: p.stack.subrange(0, p.stack.len() - 16) + be_bytes_u64(f(second_u64(p.stack), top_u64(p.stack))),
                    ..p
                },
                mem,
                StepEvent::Ran,
            ),
        )
    }
}

/// One unary 64-bit stack operation: pop one value, push `f` of it.
pub open spec fn unop_spec_64(
    p: ProcView,
    mem: Seq<u8>,
    f: spec_fn(u64) -> u64,
) -> Result<(ProcView, Seq<u8>, StepEvent), Fault> {
    if p.stack.len() < 8 {
        Err(Fault::StackUnderflow)
    } else {
        Ok(
            (
                ProcView {
                    stack: p.stack.subrange(0, p.stack.len() - 8) + be_bytes_u64(f(top_u64(p.stack))),
                    ..p
                },
                mem,
                StepEvent::Ran,
            ),
        )
    }
}

/// One 64-bit comparison: pop two values, push one byte, `1` for true.
pub open spec fn cmp_spec_64(
    p: ProcView,
    mem: Seq<u8>,
    f: spec_fn(u64, u64) -> bool,
) -> Result<(ProcView, Seq<u8>, StepEvent), Fault> {
    if p.stack.len() < 16 {
        Err(Fault::StackUnderflow)
    } else {
        Ok(
            (
                ProcView {
                    stack: p.stack.subrange(0, p.stack.len() - 16) + seq![
                        (if f(second_u64(p.stack), top_u64(p.stack)) {
                            1u8
                        } else {
                            0u8
                        }),
                    ],
                    ..p
                },
                mem,
                StepEvent::Ran,
            ),
        )
    }
}

/// The semantics of the `control` instruction family; see
/// [`evaluate_spec`], which routes here.
pub open spec fn control_spec(p: ProcView, mem: Seq<u8>, instr: Instr) -> Result<
    (ProcView, Seq<u8>, StepEvent),
    Fault,
> {
    match instr {
        Instr::nop => Ok((p, mem, StepEvent::Ran)),
        Instr::halt => Ok((ProcView { state: State::Terminated, ..p }, mem, StepEvent::Ran)),
        Instr::wait => Ok((ProcView { state: State::Waiting, ..p }, mem, StepEvent::Ran)),
        Instr::spawn => match read_value_spec(p.program, p.program_counter, mem, p.regs, 8) {
            Ok(vp) => Ok(
                (ProcView { program_counter: vp.1, ..p }, mem, StepEvent::Spawn(vp.0)),
            ),
            Err(f) => Err(f),
        },
        Instr::if_jmp => if p.stack.len() == 0 {
            Err(Fault::StackUnderflow)
        } else {
            match read_value_spec(p.program, p.program_counter, mem, p.regs, 8) {
                Ok(vp) => Ok(
                    (
                        ProcView {
                            program_counter: (if top_u8(p.stack) != 0 {
                                vp.0
                            } else {
                                vp.1
                            }),
                            stack: p.stack.drop_last(),
                            ..p
                        },
                        mem,
                        StepEvent::Ran,
                    ),
                ),
                Err(f) => Err(f),
            }
        },
        Instr::jmp => match read_value_spec(p.program, p.program_counter, mem, p.regs, 8) {
            Ok(vp) => Ok((ProcView { program_counter: vp.0, ..p }, mem, StepEvent::Ran)),
            Err(f) => Err(f),
        },
        Instr::call => match read_value_spec(p.program, p.program_counter, mem, p.regs, 8) {
            Ok(vp) => Ok(
                (
                    ProcView {
                        program_counter: vp.0,
                        function_stack: p.function_stack.push(vp.1),
                        ..p
                    },
                    mem,
                    StepEvent::Ran,
                ),
            ),
            Err(f) => Err(f),
        },
        Instr::ret => if p.function_stack.len() == 0 {
            Err(Fault::StackUnderflow)
        } else {
            Ok(
                (
                    ProcView {
                        program_counter: p.function_stack.last(),
                        function_stack: p.function_stack.drop_last(),
                        ..p
                    },
                    mem,
                    StepEvent::Ran,
                ),
            )
        },
        _ => Err(Fault::InvalidOpcode),
    }
}

/// The semantics of the `push narrow` instruction family; see
/// [`evaluate_spec`], which routes here.
pub open spec fn push_narrow_spec(p: ProcView, mem: Seq<u8>, instr: Instr) -> Result<
    (ProcView, Seq<u8>, StepEvent),
    Fault,
> {
    match instr {
        Instr::push_u8 => match read_value_spec(p.program, p.program_counter, mem, p.regs, 1) {
            Ok(vp) => Ok(
                (
                    ProcView {
                        program_counter: vp.1,
                        stack: p.stack.push(vp.0 as u8),
                        ..p
                    },
                    mem,
                    StepEvent::Ran,
                ),
            ),
            Err(f) => Err(f),
        },
        Instr::push_i8 => match read_value_spec(p.program, p.program_counter, mem, p.regs, 1) {
            Ok(vp) => Ok(
                (
                    ProcView {
                        program_counter: vp.1,
                        stack: p.stack.push(vp.0 as u8),
                        ..p
                    },
                    mem,
                    StepEvent::Ran,
                ),
            ),
            Err(f) => Err(f),
        },
        Instr::push_u16 => match read_value_spec(p.program, p.program_counter, mem, p.regs, 2) {
            Ok(vp) => Ok(
                (
                    ProcView {
                        program_counter: vp.1,
                        stack: p.stack + be_bytes_n(vp.0, 2),
                        ..p
                    },
                    mem,
                    StepEvent::Ran,
                ),
            ),
            Err(f) => Err(f),
        },
        Instr::push_i16 => match read_value_spec(p.program, p.program_counter, mem, p.regs, 2) {
            Ok(vp) => Ok(
                (
                    ProcView {
                        program_counter: vp.1,
                        stack: p.stack + be_bytes_n(vp.0, 2),
                        ..p
                    },
                    mem,
                    StepEvent::Ran,
                ),
            ),
            Err(f) => Err(f),
        },
        _ => Err(Fault::InvalidOpcode),
    }
}

/// The semantics of the `push wide` instruction family; see
/// [`evaluate_spec`], which routes here.
pub open spec fn push_wide_spec(p: ProcView, mem: Seq<u8>, instr: Instr) -> Result<
    (ProcView, Seq<u8>, StepEvent),
    Fault,
> {
    match instr {
        Instr::push_u32 => match read_value_spec(p.program, p.program_counter, mem, p.regs, 4) {
            Ok(vp) => Ok(
                (
                    ProcView {
                        program_counter: vp.1,
                        stack: p.stack + be_bytes_n(vp.0, 4),
                        ..p
                    },
                    mem,
                    StepEvent::Ran,
                ),
            ),
            Err(f) => Err(f),
        },
        Instr::push_i32 => match read_value_spec(p.program, p.program_counter, mem, p.regs, 4) {
            Ok(vp) => Ok(
                (
                    ProcView {
                        program_counter: vp.1,
                        stack: p.stack + be_bytes_n(vp.0, 4),
                        ..p
                    },
                    mem,
                    StepEvent::Ran,
                ),
            ),
            Err(f) => Err(f),
        },
        Instr::push_f32 => match read_value_spec(p.program, p.program_counter, mem, p.regs, 4) {
            Ok(vp) => Ok(
                (
                    ProcView {
                        program_counter: vp.1,
                        stack: p.stack + be_bytes_n(vp.0, 4),
                        ..p
                    },
                    mem,
                    StepEvent::Ran,
                ),
            ),
            Err(f) => Err(f),
        },
        Instr::push_u64 => match read_value_spec(p.program, p.program_counter, mem, p.regs, 8) {
            Ok(vp) => Ok(
                (
                    ProcView {
                        program_counter: vp.1,
                        stack: p.stack + be_bytes_n(vp.0, 8),
                        ..p
                    },
                    mem,
                    StepEvent::Ran,
                ),
            ),
            Err(f) => Err(f),
        },
        Instr::push_i64 => match read_value_spec(p.program, p.program_counter, mem, p.regs, 8) {
            Ok(vp) => Ok(
                (
                    ProcView {
                        program_counter: vp.1,
                        stack: p.stack + be_bytes_n(vp.0, 8),
                        ..p
                    },
                    mem,
                    StepEvent::Ran,
                ),
            ),
            Err(f) => Err(f),
        },
        Instr::push_f64 => match read_value_spec(p.program, p.program_counter, mem, p.regs, 8) {
            Ok(vp) => Ok(
                (
                    ProcView {
                        program_counter: vp.1,
                        stack: p.stack + be_bytes_n(vp.0, 8),
                        ..p
                    },
                    mem,
                    StepEvent::Ran,
                ),
            ),
            Err(f) => Err(f),
        },
        _ => Err(Fault::InvalidOpcode),
    }
}

/// The semantics of the `pop` instruction family; see
/// [`evaluate_spec`], which routes here.
pub open spec fn pop_spec(p: ProcView, mem: Seq<u8>, instr: Instr) -> Result<
    (ProcView, Seq<u8>, StepEvent),
    Fault,
> {
    match instr {
        Instr::pop_u8 => if p.stack.len() < 1 {
            Err(Fault::StackUnderflow)
        } else {
            Ok(
                (
                    ProcView { stack: p.stack.subrange(0, p.stack.len() - 1), ..p },
                    mem,
                    StepEvent::Ran,
                ),
            )
        },
        Instr::pop_i8 => if p.stack.len() < 1 {
            Err(Fault::StackUnderflow)
        } else {
            Ok(
                (
                    ProcView { stack: p.stack.subrange(0, p.stack.len() - 1), ..p },
                    mem,
                    StepEvent::Ran,
                ),
            )
        },
        Instr::pop_u16 => if p.stack.len() < 2 {
            Err(Fault::StackUnderflow)
        } else {
            Ok(
                (
                    ProcView { stack: p.stack.subrange(0, p.stack.len() - 2), ..p },
                    mem,
                    StepEvent::Ran,
                ),
            )
        },
        Instr::pop_i16 => if p.stack.len() < 2 {
            Err(Fault::StackUnderflow)
        } else {
            Ok(
                (
                    ProcView { stack: p.stack.subrange(0, p.stack.len() - 2), ..p },
                    mem,
                    StepEvent::Ran,
                ),
            )
        },
        Instr::pop_u32 => if p.stack.len() < 4 {
            Err(Fault::StackUnderflow)
        } else {
            Ok(
                (
                    ProcView { stack: p.stack.subrange(0, p.stack.len() - 4), ..p },
                    mem,
                    StepEvent::Ran,
                ),
            )
        },
        Instr::pop_i32 => if p.stack.len() < 4 {
            Err(Fault::StackUnderflow)
        } else {
            Ok(
                (
                    ProcView { stack: p.stack.subrange(0, p.stack.len() - 4), ..p },
                    mem,
                    StepEvent::Ran,
                ),
            )
        },
        Instr::pop_f32 => if p.stack.len() < 4 {
            Err(Fault::StackUnderflow)
        } else {
            Ok(
                (
                    ProcView { stack: p.stack.subrange(0, p.stack.len() - 4), ..p },
                    mem,
                    StepEvent::Ran,
                ),
            )
        },
        Instr::pop_u64 => if p.stack.len() < 8 {
            Err(Fault::StackUnderflow)
        } else {
            Ok(
                (
                    ProcView { stack: p.stack.subrange(0, p.stack.len() - 8), ..p },
                    mem,
                    StepEvent::Ran,
                ),
            )
        },
        Instr::pop_i64 => if p.stack.len() < 8 {
            Err(Fault::StackUnderflow)
        } else {
            Ok(
                (
                    ProcView { stack: p.stack.subrange(0, p.stack.len() - 8), ..p },
                    mem,
                    StepEvent::Ran,
                ),
            )
        },
        Instr::pop_f64 => if p.stack.len() < 8 {
            Err(Fault::StackUnderflow)
        } else {
            Ok(
                (
                    ProcView { stack: p.stack.subrange(0, p.stack.len() - 8), ..p },
                    mem,
                    StepEvent::Ran,
                ),
            )
        },
        _ => Err(Fault::InvalidOpcode),
    }
}

/// The semantics of the `copy` instruction family; see
/// [`evaluate_spec`], which routes here.
pub open spec fn copy_spec(p: ProcView, mem: Seq<u8>, instr: Instr) -> Result<
    (ProcView, Seq<u8>, StepEvent),
    Fault,
> {
    match instr {
        Instr::copy_u8 => if p.stack.len() < 1 {
            Err(Fault::StackUnderflow)
        } else {
            Ok(
                (
                    ProcView { stack: p.stack.push(top_u8(p.stack)), ..p },
                    mem,
                    StepEvent::Ran,
                ),
            )
        },
        Instr::copy_i8 => if p.stack.len() < 1 {
            Err(Fault::StackUnderflow)
        } else {
            Ok(
                (
                    ProcView { stack: p.stack.push(top_u8(p.stack)), ..p },
                    mem,
                    StepEvent::Ran,
                ),
            )
        },
        Instr::copy_u16 => if p.stack.len() < 2 {
            Err(Fault::StackUnderflow)
        } else {
            Ok(
                (
                    ProcView {
                        stack: p.stack + p.stack.subrange(p.stack.len() - 2, p.stack.len() as int),
                        ..p
                    },
                    mem,
                    StepEvent::Ran,
                ),
            )
        },
        Instr::copy_i16 => if p.stack.len() < 2 {
            Err(Fault::StackUnderflow)
        } else {
            Ok(
                (
                    ProcView {
                        stack: p.stack + p.stack.subrange(p.stack.len() - 2, p.stack.len() as int),
                        ..p
                    },
                    mem,
                    StepEvent::Ran,
                ),
            )
        },
        Instr::copy_u32 => if p.stack.len() < 4 {
            Err(Fault::StackUnderflow)
        } else {
            Ok(
                (
                    ProcView {
                        stack: p.stack + p.stack.subrange(p.stack.len() - 4, p.stack.len() as int),
                        ..p
                    },
                    mem,
                    StepEvent::Ran,
                ),
            )
        },
        Instr::copy_i32 => if p.stack.len() < 4 {
            Err(Fault::StackUnderflow)
        } else {
            Ok(
                (
                    ProcView {
                        stack: p.stack + p.stack.subrange(p.stack.len() - 4, p.stack.len() as int),
                        ..p
                    },
                    mem,
                    StepEvent::Ran,
                ),
            )
        },
        Instr::copy_f32 => if p.stack.len() < 4 {
            Err(Fault::StackUnderflow)
        } else {
            Ok(
                (
                    ProcView {
                        stack: p.stack + p.stack.subrange(p.stack.len() - 4, p.stack.len() as int),
                        ..p
                    },
                    mem,
                    StepEvent::Ran,
                ),
            )
        },
        Instr::copy_u64 => if p.stack.len() < 8 {
            Err(Fault::StackUnderflow)
        } else {
            Ok(
                (
                    ProcView {
                        stack: p.stack + p.stack.subrange(p.stack.len() - 8, p.stack.len() as int),
                        ..p
                    },
                    mem,
                    StepEvent::Ran,
                ),
            )
        },
        Instr::copy_i64 => if p.stack.len() < 8 {
            Err(Fault::StackUnderflow)
        } else {
            Ok(
                (
                    ProcView {
                        stack: p.stack + p.stack.subrange(p.stack.len() - 8, p.stack.len() as int),
                        ..p
                    },
                    mem,
                    StepEvent::Ran,
                ),
            )
        },
        Instr::copy_f64 => if p.stack.len() < 8 {
            Err(Fault::StackUnderflow)
        } else {
            Ok(
                (
                    ProcView {
                        stack: p.stack + p.stack.subrange(p.stack.len() - 8, p.stack.len() as int),
                        ..p
                    },
                    mem,
                    StepEvent::Ran,
                ),
            )
        },
        _ => Err(Fault::InvalidOpcode),
    }
}

/// The semantics of the `memory` instruction family; see
/// [`evaluate_spec`], which routes here.
pub open spec fn memory_spec(p: ProcView, mem: Seq<u8>, instr: Instr) -> Result<
    (ProcView, Seq<u8>, StepEvent),
    Fault,
> {
    match instr {
        Instr::load_u8 => if p.stack.len() < 8 {
            Err(Fault::StackUnderflow)
        } else {
            match mem_read_spec(mem, top_u64(p.stack), 1) {
                Ok(v) => Ok(
                    (
                        ProcView {
                            stack: p.stack.subrange(0, p.stack.len() - 8) + be_bytes_n(v, 1),
                            ..p
                        },
                        mem,
                        StepEvent::Ran,
                    ),
                ),
                Err(f) => Err(f),
            }
        },
        Instr::load_i8 => if p.stack.len() < 8 {
            Err(Fault::StackUnderflow)
        } else {
            match mem_read_spec(mem, top_u64(p.stack), 1) {
                Ok(v) => Ok(
                    (
                        ProcView {
                            stack: p.stack.subrange(0, p.stack.len() - 8) + be_bytes_n(v, 1),
                            ..p
                        },
                        mem,
                        StepEvent::Ran,
                    ),
                ),
                Err(f) => Err(f),
            }
        },
        Instr::load_u16 => if p.stack.len() < 8 {
            Err(Fault::StackUnderflow)
        } else {
            match mem_read_spec(mem, top_u64(p.stack), 2) {
                Ok(v) => Ok(
                    (
                        ProcView {
                            stack: p.stack.subrange(0, p.stack.len() - 8) + be_bytes_n(v, 2),
                            ..p
                        },
                        mem,
                        StepEvent::Ran,
                    ),
                ),
                Err(f) => Err(f),
            }
        },
        Instr::load_i16 => if p.stack.len() < 8 {
            Err(Fault::StackUnderflow)
        } else {
            match mem_read_spec(mem, top_u64(p.stack), 2) {
                Ok(v) => Ok(
                    (
                        ProcView {
                            stack: p.stack.subrange(0, p.stack.len() - 8) + be_bytes_n(v, 2),
                            ..p
                        },
                        mem,
                        StepEvent::Ran,
                    ),
                ),
                Err(f) => Err(f),
            }
        },
        Instr::load_u32 => if p.stack.len() < 8 {
            Err(Fault::StackUnderflow)
        } else {
            match mem_read_spec(mem, top_u64(p.stack), 4) {
                Ok(v) => Ok(
                    (
                        ProcView {
                            stack: p.stack.subrange(0, p.stack.len() - 8) + be_bytes_n(v, 4),
                            ..p
                        },
                        mem,
                        StepEvent::Ran,
                    ),
                ),
                Err(f) => Err(f),
            }
        },
        Instr::load_i32 => if p.stack.len() < 8 {
            Err(Fault::StackUnderflow)
        } else {
            match mem_read_spec(mem, top_u64(p.stack), 4) {
                Ok(v) => Ok(
                    (
                        ProcView {
                            stack: p.stack.subrange(0, p.stack.len() - 8) + be_bytes_n(v, 4),
                            ..p
                        },
                        mem,
                        StepEvent::Ran,
                    ),
                ),
                Err(f) => Err(f),
            }
        },
        Instr::load_f32 => if p.stack.len() < 8 {
            Err(Fault::StackUnderflow)
        } else {
            match mem_read_spec(mem, top_u64(p.stack), 4) {
                Ok(v) => Ok(
                    (
                        ProcView {
                            stack: p.stack.subrange(0, p.stack.len() - 8) + be_bytes_n(v, 4),
                            ..p
                        },
                        mem,
                        StepEvent::Ran,
                    ),
                ),
                Err(f) => Err(f),
            }
        },
        Instr::load_u64 => if p.stack.len() < 8 {
            Err(Fault::StackUnderflow)
        } else {
            match mem_read_spec(mem, top_u64(p.stack), 8) {
                Ok(v) => Ok(
                    (
                        ProcView {
                            stack: p.stack.subrange(0, p.stack.len() - 8) + be_bytes_n(v, 8),
                            ..p
                        },
                        mem,
                        StepEvent::Ran,
                    ),
                ),
                Err(f) => Err(f),
            }
        },
        Instr::load_i64 => if p.stack.len() < 8 {
            Err(Fault::StackUnderflow)
        } else {
            match mem_read_spec(mem, top_u64(p.stack), 8) {
                Ok(v) => Ok(
                    (
                        ProcView {
                            stack: p.stack.subrange(0, p.stack.len() - 8) + be_bytes_n(v, 8),
                            ..p
                        },
                        mem,
                        StepEvent::Ran,
                    ),
                ),
                Err(f) => Err(f),
            }
        },
        Instr::load_f64 => if p.stack.len() < 8 {
            Err(Fault::StackUnderflow)
        } else {
            match mem_read_spec(mem, top_u64(p.stack), 8) {
                Ok(v) => Ok(
                    (
                        ProcView {
                            stack: p.stack.subrange(0, p.stack.len() - 8) + be_bytes_n(v, 8),
                            ..p
                        },
                        mem,
                        StepEvent::Ran,
                    ),
                ),
                Err(f) => Err(f),
            }
        },
        Instr::save_u8 => if p.stack.len() < 9 {
            Err(Fault::StackUnderflow)
        } else {
            match mem_write_spec(
                mem,
                top_u64(p.stack),
                1,
                top_u8(p.stack.subrange(0, p.stack.len() - 8)) as u64,
            ) {
                Ok(m2) => Ok(
                    (
                        ProcView {
                            stack: p.stack.subrange(0, p.stack.len() - 9),
                            ..p
                        },
                        m2,
                        StepEvent::Ran,
                    ),
                ),
                Err(f) => Err(f),
            }
        },
        Instr::save_i8 => if p.stack.len() < 9 {
            Err(Fault::StackUnderflow)
        } else {
            match mem_write_spec(
                mem,
                top_u64(p.stack),
                1,
                top_u8(p.stack.subrange(0, p.stack.len() - 8)) as u64,
            ) {
                Ok(m2) => Ok(
                    (
                        ProcView {
                            stack: p.stack.subrange(0, p.stack.len() - 9),
                            ..p
                        },
                        m2,
                        StepEvent::Ran,
                    ),
                ),
                Err(f) => Err(f),
            }
        },
        Instr::save_u16 => if p.stack.len() < 10 {
            Err(Fault::StackUnderflow)
        } else {
            match mem_write_spec(
                mem,
                top_u64(p.stack),
                2,
                top_u16(p.stack.subrange(0, p.stack.len() - 8)) as u64,
            ) {
                Ok(m2) => Ok(
                    (
                        ProcView {
                            stack: p.stack.subrange(0, p.stack.len() - 10),
                            ..p
                        },
                        m2,
                        StepEvent::Ran,
                    ),
                ),
                Err(f) => Err(f),
            }
        },
        Instr::save_i16 => if p.stack.len() < 10 {
            Err(Fault::StackUnderflow)
        } else {
            match mem_write_spec(
                mem,
                top_u64(p.stack),
                2,
                top_u16(p.stack.subrange(0, p.stack.len() - 8)) as u64,
            ) {
                Ok(m2) => Ok(
                    (
                        ProcView {
                            stack: p.stack.subrange(0, p.stack.len() - 10),
                            ..p
                        },
                        m2,
                        StepEvent::Ran,
                    ),
                ),
                Err(f) => Err(f),
            }
        },
        Instr::save_u32 => if p.stack.len() < 12 {
            Err(Fault::StackUnderflow)
        } else {
            match mem_write_spec(
                mem,
                top_u64(p.stack),
                4,
                top_u32(p.stack.subrange(0, p.stack.len() - 8)) as u64,
            ) {
                Ok(m2) => Ok(
                    (
                        ProcView {
                            stack: p.stack.subrange(0, p.stack.len() - 12),
                            ..p
                        },
                        m2,
                        StepEvent::Ran,
                    ),
                ),
                Err(f) => Err(f),
            }
        },
        Instr::save_i32 => if p.stack.len() < 12 {
            Err(Fault::StackUnderflow)
        } else {
            match mem_write_spec(
                mem,
                top_u64(p.stack),
                4,
                top_u32(p.stack.subrange(0, p.stack.len() - 8)) as u64,
            ) {
                Ok(m2) => Ok(
                    (
                        ProcView {
                            stack: p.stack.subrange(0, p.stack.len() - 12),
                            ..p
                        },
                        m2,
                        StepEvent::Ran,
                    ),
                ),
                Err(f) => Err(f),
            }
        },
        Instr::save_f32 => if p.stack.len() < 12 {
            Err(Fault::StackUnderflow)
        } else {
            match mem_write_spec(
                mem,
                top_u64(p.stack),
                4,
                top_u32(p.stack.subrange(0, p.stack.len() - 8)) as u64,
            ) {
                Ok(m2) => Ok(
                    (
                        ProcView {
                            stack: p.stack.subrange(0, p.stack.len() - 12),
                            ..p
                        },
                        m2,
                        StepEvent::Ran,
                    ),
                ),
                Err(f) => Err(f),
            }
        },
        Instr::save_u64 => if p.stack.len() < 16 {
            Err(Fault::StackUnderflow)
        } else {
            match mem_write_spec(
                mem,
                top_u64(p.stack),
                8,
                top_u64(p.stack.subrange(0, p.stack.len() - 8)) as u64,
            ) {
                Ok(m2) => Ok(
                    (
                        ProcView {
                            stack: p.stack.subrange(0, p.stack.len() - 16),
                            ..p
                        },
                        m2,
                        StepEvent::Ran,
                    ),
                ),
                Err(f) => Err(f),
            }
        },
        Instr::save_i64 => if p.stack.len() < 16 {
            Err(Fault::StackUnderflow)
        } else {
            match mem_write_spec(
                mem,
                top_u64(p.stack),
                8,
                top_u64(p.stack.subrange(0, p.stack.len() - 8)) as u64,
            ) {
                Ok(m2) => Ok(
                    (
                        ProcView {
                            stack: p.stack.subrange(0, p.stack.len() - 16),
                            ..p
                        },
                        m2,
                        StepEvent::Ran,
                    ),
                ),
                Err(f) => Err(f),
            }
        },
        Instr::save_f64 => if p.stack.len() < 16 {
            Err(Fault::StackUnderflow)
        } else {
            match mem_write_spec(
                mem,
                top_u64(p.stack),
                8,
                top_u64(p.stack.subrange(0, p.stack.len() - 8)) as u64,
            ) {
                Ok(m2) => Ok(
                    (
                        ProcView {
                            stack: p.stack.subrange(0, p.stack.len() - 16),
                            ..p
                        },
                        m2,
                        StepEvent::Ran,
                    ),
                ),
                Err(f) => Err(f),
            }
        },
        _ => Err(Fault::InvalidOpcode),
    }
}

/// The semantics of the `wrap` instruction family; see
/// [`evaluate_spec`], which routes here.
pub open spec fn wrap_spec(p: ProcView, mem: Seq<u8>, instr: Instr) -> Result<
    (ProcView, Seq<u8>, StepEvent),
    Fault,
> {
    match instr {
        Instr::add_u8 => binop_spec_8(p, mem, |a: u8, b: u8| u8_specs::wrapping_add(a, b)),
        Instr::add_i8 => binop_spec_8(
            p,
            mem,
            |a: u8, b: u8| i8_specs::wrapping_add(a as i8, b as i8) as u8,
        ),
        Instr::add_u16 => binop_spec_16(p, mem, |a: u16, b: u16| u16_specs::wrapping_add(a, b)),
        Instr::add_i16 => binop_spec_16(
            p,
            mem,
            |a: u16, b: u16| i16_specs::wrapping_add(a as i16, b as i16) as u16,
        ),
        Instr::add_u32 => binop_spec_32(p, mem, |a: u32, b: u32| u32_specs::wrapping_add(a, b)),
        Instr::add_i32 => binop_spec_32(
            p,
            mem,
            |a: u32, b: u32| i32_specs::wrapping_add(a as i32, b as i32) as u32,
        ),
        Instr::add_u64 => binop_spec_64(p, mem, |a: u64, b: u64| u64_specs::wrapping_add(a, b)),
        Instr::add_i64 => binop_spec_64(
            p,
            mem,
            |a: u64, b: u64| i64_specs::wrapping_add(a as i64, b as i64) as u64,
        ),
        Instr::sub_u8 => binop_spec_8(p, mem, |a: u8, b: u8| u8_specs::wrapping_sub(a, b)),
        Instr::sub_i8 => binop_spec_8(
            p,
            mem,
            |a: u8, b: u8| i8_specs::wrapping_sub(a as i8, b as i8) as u8,
        ),
        Instr::sub_u16 => binop_spec_16(p, mem, |a: u16, b: u16| u16_specs::wrapping_sub(a, b)),
        Instr::sub_i16 => binop_spec_16(
            p,
            mem,
            |a: u16, b: u16| i16_specs::wrapping_sub(a as i16, b as i16) as u16,
        ),
        Instr::sub_u32 => binop_spec_32(p, mem, |a: u32, b: u32| u32_specs::wrapping_sub(a, b)),
        Instr::sub_i32 => binop_spec_32(
            p,
            mem,
            |a: u32, b: u32| i32_specs::wrapping_sub(a as i32, b as i32) as u32,
        ),
        Instr::sub_u64 => binop_spec_64(p, mem, |a: u64, b: u64| u64_specs::wrapping_sub(a, b)),
        Instr::sub_i64 => binop_spec_64(
            p,
            mem,
            |a: u64, b: u64| i64_specs::wrapping_sub(a as i64, b as i64) as u64,
        ),
        Instr::mul_u8 => binop_spec_8(p, mem, |a: u8, b: u8| u8_specs::wrapping_mul(a, b)),
        Instr::mul_i8 => binop_spec_8(
            p,
            mem,
            |a: u8, b: u8| i8_specs::wrapping_mul(a as i8, b as i8) as u8,
        ),
        Instr::mul_u16 => binop_spec_16(p, mem, |a: u16, b: u16| u16_specs::wrapping_mul(a, b)),
        Instr::mul_i16 => binop_spec_16(
            p,
            mem,
            |a: u16, b: u16| i16_specs::wrapping_mul(a as i16, b as i16) as u16,
        ),
        Instr::mul_u32 => binop_spec_32(p, mem, |a: u32, b: u32| u32_specs::wrapping_mul(a, b)),
        Instr::mul_i32 => binop_spec_32(
            p,
            mem,
            |a: u32, b: u32| i32_specs::wrapping_mul(a as i32, b as i32) as u32,
        ),
        Instr::mul_u64 => binop_spec_64(p, mem, |a: u64, b: u64| u64_specs::wrapping_mul(a, b)),
        Instr::mul_i64 => binop_spec_64(
            p,
            mem,
            |a: u64, b: u64| i64_specs::wrapping_mul(a as i64, b as i64) as u64,
        ),
        _ => Err(Fault::InvalidOpcode),
    }
}

/// The semantics of the `divrem` instruction family; see
/// [`evaluate_spec`], which routes here.
pub open spec fn divrem_spec(p: ProcView, mem: Seq<u8>, instr: Instr) -> Result<
    (ProcView, Seq<u8>, StepEvent),
    Fault,
> {
    match instr {
        Instr::div_u8 => if p.stack.len() < 2 {
            Err(Fault::StackUnderflow)
        } else if top_u8(p.stack) == 0 {
            Err(Fault::DivideByZero)
        } else {
            binop_spec_8(p, mem, |a: u8, b: u8| ((a as nat) / (b as nat)) as u8)
        },
        Instr::div_i8 => if p.stack.len() < 2 {
            Err(Fault::StackUnderflow)
        } else if top_u8(p.stack) as i8 == 0 {
            Err(Fault::DivideByZero)
        } else {
            binop_spec_8(p, mem, |a: u8, b: u8| sdiv_i8(a as i8, b as i8) as u8)
        },
        Instr::div_u16 => if p.stack.len() < 4 {
            Err(Fault::StackUnderflow)
        } else if top_u16(p.stack) == 0 {
            Err(Fault::DivideByZero)
        } else {
            binop_spec_16(p, mem, |a: u16, b: u16| ((a as nat) / (b as nat)) as u16)
        },
        Instr::div_i16 => if p.stack.len() < 4 {
            Err(Fault::StackUnderflow)
        } else if top_u16(p.stack) as i16 == 0 {
            Err(Fault::DivideByZero)
        } else {
            binop_spec_16(p, mem, |a: u16, b: u16| sdiv_i16(a as i16, b as i16) as u16)
        },
        Instr::div_u32 => if p.stack.len() < 8 {
            Err(Fault::StackUnderflow)
        } else if top_u32(p.stack) == 0 {
            Err(Fault::DivideByZero)
        } else {
            binop_spec_32(p, mem, |a: u32, b: u32| ((a as nat) / (b as nat)) as u32)
        },
        Instr::div_i32 => if p.stack.len() < 8 {
            Err(Fault::StackUnderflow)
        } else if top_u32(p.stack) as i32 == 0 {
            Err(Fault::DivideByZero)
        } else {
            binop_spec_32(p, mem, |a: u32, b: u32| sdiv_i32(a as i32, b as i32) as u32)
        },
        Instr::div_u64 => if p.stack.len() < 16 {
            Err(Fault::StackUnderflow)
        } else if top_u64(p.stack) == 0 {
            Err(Fault::DivideByZero)
        } else {
            binop_spec_64(p, mem, |a: u64, b: u64| ((a as nat) / (b as nat)) as u64)
        },
        Instr::div_i64 => if p.stack.len() < 16 {
            Err(Fault::StackUnderflow)
        } else if top_u64(p.stack) as i64 == 0 {
            Err(Fault::DivideByZero)
        } else {
            binop_spec_64(p, mem, |a: u64, b: u64| sdiv_i64(a as i64, b as i64) as u64)
        },
        Instr::rem_u8 => if p.stack.len() < 2 {
            Err(Fault::StackUnderflow)
        } else if top_u8(p.stack) == 0 {
            Err(Fault::DivideByZero)
        } else {
            binop_spec_8(p, mem, |a: u8, b: u8| ((a as nat) % (b as nat)) as u8)
        },
        Instr::rem_i8 => if p.stack.len() < 2 {
            Err(Fault::StackUnderflow)
        } else if top_u8(p.stack) as i8 == 0 {
            Err(Fault::DivideByZero)
        } else {
            binop_spec_8(p, mem, |a: u8, b: u8| srem_i8(a as i8, b as i8) as u8)
        },
        Instr::rem_u16 => if p.stack.len() < 4 {
            Err(Fault::StackUnderflow)
        } else if top_u16(p.stack) == 0 {
            Err(Fault::DivideByZero)
        } else {
            binop_spec_16(p, mem, |a: u16, b: u16| ((a as nat) % (b as nat)) as u16)
        },
        Instr::rem_i16 => if p.stack.len() < 4 {
            Err(Fault::StackUnderflow)
        } else if top_u16(p.stack) as i16 == 0 {
            Err(Fault::DivideByZero)
        } else {
            binop_spec_16(p, mem, |a: u16, b: u16| srem_i16(a as i16, b as i16) as u16)
        },
        Instr::rem_u32 => if p.stack.len() < 8 {
            Err(Fault::StackUnderflow)
        } else if top_u32(p.stack) == 0 {
            Err(Fault::DivideByZero)
        } else {
            binop_spec_32(p, mem, |a: u32, b: u32| ((a as nat) % (b as nat)) as u32)
        },
        Instr::rem_i32 => if p.stack.len() < 8 {
            Err(Fault::StackUnderflow)
        } else if top_u32(p.stack) as i32 == 0 {
            Err(Fault::DivideByZero)
        } else {
            binop_spec_32(p, mem, |a: u32, b: u32| srem_i32(a as i32, b as i32) as u32)
        },
        Instr::rem_u64 => if p.stack.len() < 16 {
            Err(Fault::StackUnderflow)
        } else if top_u64(p.stack) == 0 {
            Err(Fault::DivideByZero)
        } else {
            binop_spec_64(p, mem, |a: u64, b: u64| ((a as nat) % (b as nat)) as u64)
        },
        Instr::rem_i64 => if p.stack.len() < 16 {
            Err(Fault::StackUnderflow)
        } else if top_u64(p.stack) as i64 == 0 {
            Err(Fault::DivideByZero)
        } else {
            binop_spec_64(p, mem, |a: u64, b: u64| srem_i64(a as i64, b as i64) as u64)
        },
        _ => Err(Fault::InvalidOpcode),
    }
}

/// The semantics of the `logic` instruction family; see
/// [`evaluate_spec`], which routes here.
pub open spec fn logic_spec(p: ProcView, mem: Seq<u8>, instr: Instr) -> Result<
    (ProcView, Seq<u8>, StepEvent),
    Fault,
> {
    match instr {
        Instr::and_u8 => binop_spec_8(p, mem, |a: u8, b: u8| a & b),
        Instr::and_i8 => binop_spec_8(
            p,
            mem,
            |a: u8, b: u8| ((a as i8) & (b as i8)) as u8,
        ),
        Instr::and_u16 => binop_spec_16(p, mem, |a: u16, b: u16| a & b),
        Instr::and_i16 => binop_spec_16(
            p,
            mem,
            |a: u16, b: u16| ((a as i16) & (b as i16)) as u16,
        ),
        Instr::and_u32 => binop_spec_32(p, mem, |a: u32, b: u32| a & b),
        Instr::and_i32 => binop_spec_32(
            p,
            mem,
            |a: u32, b: u32| ((a as i32) & (b as i32)) as u32,
        ),
        Instr::and_u64 => binop_spec_64(p, mem, |a: u64, b: u64| a & b),
        Instr::and_i64 => binop_spec_64(
            p,
            mem,
            |a: u64, b: u64| ((a as i64) & (b as i64)) as u64,
        ),
        Instr::or_u8 => binop_spec_8(p, mem, |a: u8, b: u8| a | b),
        Instr::or_i8 => binop_spec_8(
            p,
            mem,
            |a: u8, b: u8| ((a as i8) | (b as i8)) as u8,
        ),
        Instr::or_u16 => binop_spec_16(p, mem, |a: u16, b: u16| a | b),
        Instr::or_i16 => binop_spec_16(
            p,
            mem,
            |a: u16, b: u16| ((a as i16) | (b as i16)) as u16,
        ),
        Instr::or_u32 => binop_spec_32(p, mem, |a: u32, b: u32| a | b),
        Instr::or_i32 => binop_spec_32(
            p,
            mem,
            |a: u32, b: u32| ((a as i32) | (b as i32)) as u32,
        ),
        Instr::or_u64 => binop_spec_64(p, mem, |a: u64, b: u64| a | b),
        Instr::or_i64 => binop_spec_64(
            p,
            mem,
            |a: u64, b: u64| ((a as i64) | (b as i64)) as u64,
        ),
        Instr::xor_u8 => binop_spec_8(p, mem, |a: u8, b: u8| a ^ b),
        Instr::xor_i8 => binop_spec_8(
            p,
            mem,
            |a: u8, b: u8| ((a as i8) ^ (b as i8)) as u8,
        ),
        Instr::xor_u16 => binop_spec_16(p, mem, |a: u16, b: u16| a ^ b),
        Instr::xor_i16 => binop_spec_16(
            p,
            mem,
            |a: u16, b: u16| ((a as i16) ^ (b as i16)) as u16,
        ),
        Instr::xor_u32 => binop_spec_32(p, mem, |a: u32, b: u32| a ^ b),
        Instr::xor_i32 => binop_spec_32(
            p,
            mem,
            |a: u32, b: u32| ((a as i32) ^ (b as i32)) as u32,
        ),
        Instr::xor_u64 => binop_spec_64(p, mem, |a: u64, b: u64| a ^ b),
        Instr::xor_i64 => binop_spec_64(
            p,
            mem,
            |a: u64, b: u64| ((a as i64) ^ (b as i64)) as u64,
        ),
        _ => Err(Fault::InvalidOpcode),
    }
}

/// The semantics of the `shift` instruction family; see
/// [`evaluate_spec`], which routes here.
pub open spec fn shift_spec(p: ProcView, mem: Seq<u8>, instr: Instr) -> Result<
    (ProcView, Seq<u8>, StepEvent),
    Fault,
> {
    match instr {
        Instr::shl_u8 => binop_spec_8(p, mem, |a: u8, b: u8| u8_specs::wrapping_shl(a, b as u32)),
        Instr::shl_i8 => binop_spec_8(
            p,
            mem,
            |a: u8, b: u8| i8_specs::wrapping_shl(a as i8, b as u32) as u8,
        ),
        Instr::shl_u16 => binop_spec_16(p, mem, |a: u16, b: u16| u16_specs::wrapping_shl(a, b as u32)),
        Instr::shl_i16 => binop_spec_16(
            p,
            mem,
            |a: u16, b: u16| i16_specs::wrapping_shl(a as i16, b as u32) as u16,
        ),
        Instr::shl_u32 => binop_spec_32(p, mem, |a: u32, b: u32| u32_specs::wrapping_shl(a, b as u32)),
        Instr::shl_i32 => binop_spec_32(
            p,
            mem,
            |a: u32, b: u32| i32_specs::wrapping_shl(a as i32, b as u32) as u32,
        ),
        Instr::shl_u64 => binop_spec_64(p, mem, |a: u64, b: u64| u64_specs::wrapping_shl(a, b as u32)),
        Instr::shl_i64 => binop_spec_64(
            p,
            mem,
            |a: u64, b: u64| i64_specs::wrapping_shl(a as i64, b as u32) as u64,
        ),
        Instr::shr_u8 => binop_spec_8(p, mem, |a: u8, b: u8| u8_specs::wrapping_shr(a, b as u32)),
        Instr::shr_i8 => binop_spec_8(
            p,
            mem,
            |a: u8, b: u8| i8_specs::wrapping_shr(a as i8, b as u32) as u8,
        ),
        Instr::shr_u16 => binop_spec_16(p, mem, |a: u16, b: u16| u16_specs::wrapping_shr(a, b as u32)),
        Instr::shr_i16 => binop_spec_16(
            p,
            mem,
            |a: u16, b: u16| i16_specs::wrapping_shr(a as i16, b as u32) as u16,
        ),
        Instr::shr_u32 => binop_spec_32(p, mem, |a: u32, b: u32| u32_specs::wrapping_shr(a, b as u32)),
        Instr::shr_i32 => binop_spec_32(
            p,
            mem,
            |a: u32, b: u32| i32_specs::wrapping_shr(a as i32, b as u32) as u32,
        ),
        Instr::shr_u64 => binop_spec_64(p, mem, |a: u64, b: u64| u64_specs::wrapping_shr(a, b as u32)),
        Instr::shr_i64 => binop_spec_64(
            p,
            mem,
            |a: u64, b: u64| i64_specs::wrapping_shr(a as i64, b as u32) as u64,
        ),
        _ => Err(Fault::InvalidOpcode),
    }
}

/// The semantics of the `unary` instruction family; see
/// [`evaluate_spec`], which routes here.
pub open spec fn unary_spec(p: ProcView, mem: Seq<u8>, instr: Instr) -> Result<
    (ProcView, Seq<u8>, StepEvent),
    Fault,
> {
    match instr {
        Instr::not_u8 => unop_spec_8(p, mem, |a: u8| !a),
        Instr::not_i8 => unop_spec_8(p, mem, |a: u8| (!(a as i8)) as u8),
        Instr::not_u16 => unop_spec_16(p, mem, |a: u16| !a),
        Instr::not_i16 => unop_spec_16(p, mem, |a: u16| (!(a as i16)) as u16),
        Instr::not_u32 => unop_spec_32(p, mem, |a: u32| !a),
        Instr::not_i32 => unop_spec_32(p, mem, |a: u32| (!(a as i32)) as u32),
        Instr::not_u64 => unop_spec_64(p, mem, |a: u64| !a),
        Instr::not_i64 => unop_spec_64(p, mem, |a: u64| (!(a as i64)) as u64),
        Instr::neg_u8 => unop_spec_8(p, mem, |a: u8| u8_specs::wrapping_sub(0u8, a)),
        Instr::neg_i8 => unop_spec_8(
            p,
            mem,
            |a: u8| i8_specs::wrapping_sub(0i8, a as i8) as u8,
        ),
        Instr::neg_u16 => unop_spec_16(p, mem, |a: u16| u16_specs::wrapping_sub(0u16, a)),
        Instr::neg_i16 => unop_spec_16(
            p,
            mem,
            |a: u16| i16_specs::wrapping_sub(0i16, a as i16) as u16,
        ),
        Instr::neg_u32 => unop_spec_32(p, mem, |a: u32| u32_specs::wrapping_sub(0u32, a)),
        Instr::neg_i32 => unop_spec_32(
            p,
            mem,
            |a: u32| i32_specs::wrapping_sub(0i32, a as i32) as u32,
        ),
        Instr::neg_u64 => unop_spec_64(p, mem, |a: u64| u64_specs::wrapping_sub(0u64, a)),
        Instr::neg_i64 => unop_spec_64(
            p,
            mem,
            |a: u64| i64_specs::wrapping_sub(0i64, a as i64) as u64,
        ),
        _ => Err(Fault::InvalidOpcode),
    }
}

/// The semantics of the `cmp lt` instruction family; see
/// [`evaluate_spec`], which routes here.
pub open spec fn cmp_lt_spec(p: ProcView, mem: Seq<u8>, instr: Instr) -> Result<
    (ProcView, Seq<u8>, StepEvent),
    Fault,
> {
    match instr {
        Instr::lt_u8 => cmp_spec_8(p, mem, |a: u8, b: u8| a < b),
        Instr::lt_i8 => cmp_spec_8(p, mem, |a: u8, b: u8| (a as i8) < (b as i8)),
        Instr::lt_u16 => cmp_spec_16(p, mem, |a: u16, b: u16| a < b),
        Instr::lt_i16 => cmp_spec_16(p, mem, |a: u16, b: u16| (a as i16) < (b as i16)),
        Instr::lt_u32 => cmp_spec_32(p, mem, |a: u32, b: u32| a < b),
        Instr::lt_i32 => cmp_spec_32(p, mem, |a: u32, b: u32| (a as i32) < (b as i32)),
        Instr::lt_u64 => cmp_spec_64(p, mem, |a: u64, b: u64| a < b),
        Instr::lt_i64 => cmp_spec_64(p, mem, |a: u64, b: u64| (a as i64) < (b as i64)),
        Instr::lte_u8 => cmp_spec_8(p, mem, |a: u8, b: u8| a <= b),
        Instr::lte_i8 => cmp_spec_8(p, mem, |a: u8, b: u8| (a as i8) <= (b as i8)),
        Instr::lte_u16 => cmp_spec_16(p, mem, |a: u16, b: u16| a <= b),
        Instr::lte_i16 => cmp_spec_16(p, mem, |a: u16, b: u16| (a as i16) <= (b as i16)),
        Instr::lte_u32 => cmp_spec_32(p, mem, |a: u32, b: u32| a <= b),
        Instr::lte_i32 => cmp_spec_32(p, mem, |a: u32, b: u32| (a as i32) <= (b as i32)),
        Instr::lte_u64 => cmp_spec_64(p, mem, |a: u64, b: u64| a <= b),
        Instr::lte_i64 => cmp_spec_64(p, mem, |a: u64, b: u64| (a as i64) <= (b as i64)),
        _ => Err(Fault::InvalidOpcode),
    }
}

/// The semantics of the `cmp gt` instruction family; see
/// [`evaluate_spec`], which routes here.
pub open spec fn cmp_gt_spec(p: ProcView, mem: Seq<u8>, instr: Instr) -> Result<
    (ProcView, Seq<u8>, StepEvent),
    Fault,
> {
    match instr {
        Instr::gt_u8 => cmp_spec_8(p, mem, |a: u8, b: u8| a > b),
        Instr::gt_i8 => cmp_spec_8(p, mem, |a: u8, b: u8| (a as i8) > (b as i8)),
        Instr::gt_u16 => cmp_spec_16(p, mem, |a: u16, b: u16| a > b),
        Instr::gt_i16 => cmp_spec_16(p, mem, |a: u16, b: u16| (a as i16) > (b as i16)),
        Instr::gt_u32 => cmp_spec_32(p, mem, |a: u32, b: u32| a > b),
        Instr::gt_i32 => cmp_spec_32(p, mem, |a: u32, b: u32| (a as i32) > (b as i32)),
        Instr::gt_u64 => cmp_spec_64(p, mem, |a: u64, b: u64| a > b),
        Instr::gt_i64 => cmp_spec_64(p, mem, |a: u64, b: u64| (a as i64) > (b as i64)),
        Instr::gte_u8 => cmp_spec_8(p, mem, |a: u8, b: u8| a >= b),
        Instr::gte_i8 => cmp_spec_8(p, mem, |a: u8, b: u8| (a as i8) >= (b as i8)),
        Instr::gte_u16 => cmp_spec_16(p, mem, |a: u16, b: u16| a >= b),
        Instr::gte_i16 => cmp_spec_16(p, mem, |a: u16, b: u16| (a as i16) >= (b as i16)),
        Instr::gte_u32 => cmp_spec_32(p, mem, |a: u32, b: u32| a >= b),
        Instr::gte_i32 => cmp_spec_32(p, mem, |a: u32, b: u32| (a as i32) >= (b as i32)),
        Instr::gte_u64 => cmp_spec_64(p, mem, |a: u64, b: u64| a >= b),
        Instr::gte_i64 => cmp_spec_64(p, mem, |a: u64, b: u64| (a as i64) >= (b as i64)),
        _ => Err(Fault::InvalidOpcode),
    }
}

/// The semantics of the `cmp eq` instruction family; see
/// [`evaluate_spec`], which routes here.
pub open spec fn cmp_eq_spec(p: ProcView, mem: Seq<u8>, instr: Instr) -> Result<
    (ProcView, Seq<u8>, StepEvent),
    Fault,
> {
    match instr {
        Instr::eq_u8 => cmp_spec_8(p, mem, |a: u8, b: u8| a == b),
        Instr::eq_i8 => cmp_spec_8(p, mem, |a: u8, b: u8| (a as i8) == (b as i8)),
        Instr::eq_u16 => cmp_spec_16(p, mem, |a: u16, b: u16| a == b),
        Instr::eq_i16 => cmp_spec_16(p, mem, |a: u16, b: u16| (a as i16) == (b as i16)),
        Instr::eq_u32 => cmp_spec_32(p, mem, |a: u32, b: u32| a == b),
        Instr::eq_i32 => cmp_spec_32(p, mem, |a: u32, b: u32| (a as i32) == (b as i32)),
        Instr::eq_u64 => cmp_spec_64(p, mem, |a: u64, b: u64| a == b),
        Instr::eq_i64 => cmp_spec_64(p, mem, |a: u64, b: u64| (a as i64) == (b as i64)),
        Instr::neq_u8 => cmp_spec_8(p, mem, |a: u8, b: u8| a != b),
        Instr::neq_i8 => cmp_spec_8(p, mem, |a: u8, b: u8| (a as i8) != (b as i8)),
        Instr::neq_u16 => cmp_spec_16(p, mem, |a: u16, b: u16| a != b),
        Instr::neq_i16 => cmp_spec_16(p, mem, |a: u16, b: u16| (a as i16) != (b as i16)),
        Instr::neq_u32 => cmp_spec_32(p, mem, |a: u32, b: u32| a != b),
        Instr::neq_i32 => cmp_spec_32(p, mem, |a: u32, b: u32| (a as i32) != (b as i32)),
        Instr::neq_u64 => cmp_spec_64(p, mem, |a: u64, b: u64| a != b),
        Instr::neq_i64 => cmp_spec_64(p, mem, |a: u64, b: u64| (a as i64) != (b as i64)),
        _ => Err(Fault::InvalidOpcode),
    }
}

/// What one decoded instruction does to a process and the arena: the new
/// process view, the new arena, and the surfaced event; or the fault it
/// reports.  The program counter in `p` already points past the opcode
/// byte.  An operand-tag or size-tag byte is not an instruction; executing
/// one is an `InvalidOpcode` fault.  Floating-point arithmetic is deferred
/// to the embedder unchanged.
pub open spec fn evaluate_spec(p: ProcView, mem: Seq<u8>, instr: Instr) -> Result<
    (ProcView, Seq<u8>, StepEvent),
    Fault,
> {
    match instr {
        Instr::nop
        | Instr::halt
        | Instr::wait
        | Instr::spawn
        | Instr::if_jmp
        | Instr::jmp
        | Instr::call
        | Instr::ret => control_spec(p, mem, instr),
        Instr::push_u8
        | Instr::push_i8
        | Instr::push_u16
        | Instr::push_i16 => push_narrow_spec(p, mem, instr),
        Instr::push_u32
        | Instr::push_i32
        | Instr::push_f32
        | Instr::push_u64
        | Instr::push_i64
        | Instr::push_f64 => push_wide_spec(p, mem, instr),
        Instr::pop_u8
        | Instr::pop_i8
        | Instr::pop_u16
        | Instr::pop_i16
        | Instr::pop_u32
        | Instr::pop_i32
        | Instr::pop_f32
        | Instr::pop_u64
        | Instr::pop_i64
        | Instr::pop_f64 => pop_spec(p, mem, instr),
        Instr::copy_u8
        | Instr::copy_i8
        | Instr::copy_u16
        | Instr::copy_i16
        | Instr::copy_u32
        | Instr::copy_i32
        | Instr::copy_f32
        | Instr::copy_u64
        | Instr::copy_i64
        | Instr::copy_f64 => copy_spec(p, mem, instr),
        Instr::load_u8
        | Instr::load_i8
        | Instr::load_u16
        | Instr::load_i16
        | Instr::load_u32
        | Instr::load_i32
        | Instr::load_f32
        | Instr::load_u64
        | Instr::load_i64
        | Instr::load_f64
        | Instr::save_u8
        | Instr::save_i8
        | Instr::save_u16
        | Instr::save_i16
        | Instr::save_u32
        | Instr::save_i32
        | Instr::save_f32
        | Instr::save_u64
        | Instr::save_i64
        | Instr::save_f64 => memory_spec(p, mem, instr),
        Instr::add_u8
        | Instr::add_i8
        | Instr::add_u16
        | Instr::add_i16
        | Instr::add_u32
        | Instr::add_i32
        | Instr::add_u64
        | Instr::add_i64
        | Instr::sub_u8
        | Instr::sub_i8
        | Instr::sub_u16
        | Instr::sub_i16
        | Instr::sub_u32
        | Instr::sub_i32
        | Instr::sub_u64
        | Instr::sub_i64
        | Instr::mul_u8
        | Instr::mul_i8
        | Instr::mul_u16
        | Instr::mul_i16
        | Instr::mul_u32
        | Instr::mul_i32
        | Instr::mul_u64
        | Instr::mul_i64 => wrap_spec(p, mem, instr),
        Instr::div_u8
        | Instr::div_i8
        | Instr::div_u16
        | Instr::div_i16
        | Instr::div_u32
        | Instr::div_i32
        | Instr::div_u64
        | Instr::div_i64
        | Instr::rem_u8
        | Instr::rem_i8
        | Instr::rem_u16
        | Instr::rem_i16
        | Instr::rem_u32
        | Instr::rem_i32
        | Instr::rem_u64
        | Instr::rem_i64 => divrem_spec(p, mem, instr),
        Instr::and_u8
        | Instr::and_i8
        | Instr::and_u16
        | Instr::and_i16
        | Instr::and_u32
        | Instr::and_i32
        | Instr::and_u64
        | Instr::and_i64
        | Instr::or_u8
        | Instr::or_i8
        | Instr::or_u16
        | Instr::or_i16
        | Instr::or_u32
        | Instr::or_i32
        | Instr::or_u64
        | Instr::or_i64
        | Instr::xor_u8
        | Instr::xor_i8
        | Instr::xor_u16
        | Instr::xor_i16
        | Instr::xor_u32
        | Instr::xor_i32
        | Instr::xor_u64
        | Instr::xor_i64 => logic_spec(p, mem, instr),
        Instr::shl_u8
        | Instr::shl_i8
        | Instr::shl_u16
        | Instr::shl_i16
        | Instr::shl_u32
        | Instr::shl_i32
        | Instr::shl_u64
        | Instr::shl_i64
        | Instr::shr_u8
        | Instr::shr_i8
        | Instr::shr_u16
        | Instr::shr_i16
        | Instr::shr_u32
        | Instr::shr_i32
        | Instr::shr_u64
        | Instr::shr_i64 => shift_spec(p, mem, instr),
        Instr::not_u8
        | Instr::not_i8
        | Instr::not_u16
        | Instr::not_i16
        | Instr::not_u32
        | Instr::not_i32
        | Instr::not_u64
        | Instr::not_i64
        | Instr::neg_u8
        | Instr::neg_i8
        | Instr::neg_u16
        | Instr::neg_i16
        | Instr::neg_u32
        | Instr::neg_i32
        | Instr::neg_u64
        | Instr::neg_i64 => unary_spec(p, mem, instr),
        Instr::lt_u8
        | Instr::lt_i8
        | Instr::lt_u16
        | Instr::lt_i16
        | Instr::lt_u32
        | Instr::lt_i32
        | Instr::lt_u64
        | Instr::lt_i64
        | Instr::lte_u8
        | Instr::lte_i8
        | Instr::lte_u16
        | Instr::lte_i16
        | Instr::lte_u32
        | Instr::lte_i32
        | Instr::lte_u64
        | Instr::lte_i64 => cmp_lt_spec(p, mem, instr),
        Instr::gt_u8
        | Instr::gt_i8
        | Instr::gt_u16
        | Instr::gt_i16
        | Instr::gt_u32
        | Instr::gt_i32
        | Instr::gt_u64
        | Instr::gt_i64
        | Instr::gte_u8
        | Instr::gte_i8
        | Instr::gte_u16
        | Instr::gte_i16
        | Instr::gte_u32
        | Instr::gte_i32
        | Instr::gte_u64
        | Instr::gte_i64 => cmp_gt_spec(p, mem, instr),
        Instr::eq_u8
        | Instr::eq_i8
        | Instr::eq_u16
        | Instr::eq_i16
        | Instr::eq_u32
        | Instr::eq_i32
        | Instr::eq_u64
        | Instr::eq_i64
        | Instr::neq_u8
        | Instr::neq_i8
        | Instr::neq_u16
        | Instr::neq_i16
        | Instr::neq_u32
        | Instr::neq_i32
        | Instr::neq_u64
        | Instr::neq_i64 => cmp_eq_spec(p, mem, instr),
        Instr::type_ptr
        | Instr::type_int
        | Instr::type_ptr_off
        | Instr::type_idr_ptr
        | Instr::type_idr_ptr_off
        | Instr::type_reg
        | Instr::size_8
        | Instr::size_16
        | Instr::size_32
        | Instr::size_64 => Err(Fault::InvalidOpcode),
        Instr::add_f32
        | Instr::add_f64
        | Instr::sub_f32
        | Instr::sub_f64
        | Instr::mul_f32
        | Instr::mul_f64
        | Instr::div_f32
        | Instr::div_f64
        | Instr::rem_f32
        | Instr::rem_f64
        | Instr::neg_f32
        | Instr::neg_f64
        | Instr::lt_f32
        | Instr::lt_f64
        | Instr::lte_f32
        | Instr::lte_f64
        | Instr::gt_f32
        | Instr::gt_f64
        | Instr::gte_f32
        | Instr::gte_f64
        | Instr::eq_f32
        | Instr::eq_f64
        | Instr::neq_f32
        | Instr::neq_f64 => Ok((p, mem, StepEvent::Float(instr))),
    }
}

/// One full fetch-decode-execute step: fetch the opcode byte at the
/// program counter (no byte left means the process terminates), decode it
/// (an unknown byte is an `InvalidOpcode` fault), and apply
/// [`evaluate_spec`].
#[verifier::opaque]
pub open spec fn step_spec(p: ProcView, mem: Seq<u8>) -> Result<
    (ProcView, Seq<u8>, StepEvent),
    Fault,
> {
    if p.program_counter >= p.program.len() {
        Ok((ProcView { state: State::Terminated, ..p }, mem, StepEvent::Ran))
    } else {
        match decode_byte(p.program[p.program_counter as int]) {
            Some(i) => evaluate_spec(
                ProcView { program_counter: (p.program_counter + 1) as u64, ..p },
                mem,
                i,
            ),
            None => Err(Fault::InvalidOpcode),
        }
    }
}


/// Whether `instr` belongs to this dispatch family.
pub open spec fn is_push_8_op(instr: Instr) -> bool {
    match instr {
        Instr::push_u8 | Instr::push_i8 => true,
        _ => false,
    }
}

/// Whether `instr` belongs to this dispatch family.
pub open spec fn is_push_16_op(instr: Instr) -> bool {
    match instr {
        Instr::push_u16 | Instr::push_i16 => true,
        _ => false,
    }
}

/// Whether `instr` belongs to this dispatch family.
pub open spec fn is_copy_narrow_op(instr: Instr) -> bool {
    match instr {
        Instr::copy_u8 | Instr::copy_i8 | Instr::copy_u16 | Instr::copy_i16 => true,
        _ => false,
    }
}

/// Whether `instr` belongs to this dispatch family.
pub open spec fn is_copy_wide_op(instr: Instr) -> bool {
    match instr {
        Instr::copy_u32 | Instr::copy_i32 | Instr::copy_f32 | Instr::copy_u64 | Instr::copy_i64
        | Instr::copy_f64 => true,
        _ => false,
    }
}

/// Whether `instr` belongs to this dispatch family.
pub open spec fn is_control(instr: Instr) -> bool {
    match instr {
        Instr::nop | Instr::halt | Instr::wait | Instr::spawn | Instr::if_jmp | Instr::jmp | Instr::call | Instr::ret => true,
        _ => false,
    }
}

/// Whether `instr` belongs to this dispatch family.
pub open spec fn is_push_narrow_op(instr: Instr) -> bool {
    match instr {
        Instr::push_u8 | Instr::push_i8 | Instr::push_u16 | Instr::push_i16 => true,
        _ => false,
    }
}

/// Whether `instr` belongs to this dispatch family.
pub open spec fn is_push_wide_op(instr: Instr) -> bool {
    match instr {
        Instr::push_u32 | Instr::push_i32 | Instr::push_f32 | Instr::push_u64 | Instr::push_i64 | Instr::push_f64 => true,
        _ => false,
    }
}

/// Whether `instr` belongs to this dispatch family.
pub open spec fn is_pop_op(instr: Instr) -> bool {
    match instr {
        Instr::pop_u8 | Instr::pop_i8 | Instr::pop_u16 | Instr::pop_i16 | Instr::pop_u32 | Instr::pop_i32 | Instr::pop_f32 | Instr::pop_u64 | Instr::pop_i64 | Instr::pop_f64 => true,
        _ => false,
    }
}

/// Whether `instr` belongs to this dispatch family.
pub open spec fn is_copy_op(instr: Instr) -> bool {
    match instr {
        Instr::copy_u8 | Instr::copy_i8 | Instr::copy_u16 | Instr::copy_i16 | Instr::copy_u32 | Instr::copy_i32 | Instr::copy_f32 | Instr::copy_u64 | Instr::copy_i64 | Instr::copy_f64 => true,
        _ => false,
    }
}

/// Whether `instr` belongs to this dispatch family.
pub open spec fn is_memory_op(instr: Instr) -> bool {
    match instr {
        Instr::load_u8 | Instr::load_i8 | Instr::load_u16 | Instr::load_i16 | Instr::load_u32 | Instr::load_i32 | Instr::load_f32 | Instr::load_u64 | Instr::load_i64 | Instr::load_f64 | Instr::save_u8 | Instr::save_i8 | Instr::save_u16 | Instr::save_i16 | Instr::save_u32 | Instr::save_i32 | Instr::save_f32 | Instr::save_u64 | Instr::save_i64 | Instr::save_f64 => true,
        _ => false,
    }
}

/// Whether `instr` belongs to this dispatch family.
pub open spec fn is_wrap_op(instr: Instr) -> bool {
    match instr {
        Instr::add_u8 | Instr::add_i8 | Instr::add_u16 | Instr::add_i16 | Instr::add_u32 | Instr::add_i32 | Instr::add_u64 | Instr::add_i64 | Instr::sub_u8 | Instr::sub_i8 | Instr::sub_u16 | Instr::sub_i16 | Instr::sub_u32 | Instr::sub_i32 | Instr::sub_u64 | Instr::sub_i64 | Instr::mul_u8 | Instr::mul_i8 | Instr::mul_u16 | Instr::mul_i16 | Instr::mul_u32 | Instr::mul_i32 | Instr::mul_u64 | Instr::mul_i64 => true,
        _ => false,
    }
}

/// Whether `instr` belongs to this dispatch family.
pub open spec fn is_divrem_op(instr: Instr) -> bool {
    match instr {
        Instr::div_u8 | Instr::div_i8 | Instr::div_u16 | Instr::div_i16 | Instr::div_u32 | Instr::div_i32 | Instr::div_u64 | Instr::div_i64 | Instr::rem_u8 | Instr::rem_i8 | Instr::rem_u16 | Instr::rem_i16 | Instr::rem_u32 | Instr::rem_i32 | Instr::rem_u64 | Instr::rem_i64 => true,
        _ => false,
    }
}

/// Whether `instr` belongs to this dispatch family.
pub open spec fn is_logic_op(instr: Instr) -> bool {
    match instr {
        Instr::and_u8 | Instr::and_i8 | Instr::and_u16 | Instr::and_i16 | Instr::and_u32 | Instr::and_i32 | Instr::and_u64 | Instr::and_i64 | Instr::or_u8 | Instr::or_i8 | Instr::or_u16 | Instr::or_i16 | Instr::or_u32 | Instr::or_i32 | Instr::or_u64 | Instr::or_i64 | Instr::xor_u8 | Instr::xor_i8 | Instr::xor_u16 | Instr::xor_i16 | Instr::xor_u32 | Instr::xor_i32 | Instr::xor_u64 | Instr::xor_i64 => true,
        _ => false,
    }
}

/// Whether `instr` belongs to this dispatch family.
pub open spec fn is_shift_op(instr: Instr) -> bool {
    match instr {
        Instr::shl_u8 | Instr::shl_i8 | Instr::shl_u16 | Instr::shl_i16 | Instr::shl_u32 | Instr::shl_i32 | Instr::shl_u64 | Instr::shl_i64 | Instr::shr_u8 | Instr::shr_i8 | Instr::shr_u16 | Instr::shr_i16 | Instr::shr_u32 | Instr::shr_i32 | Instr::shr_u64 | Instr::shr_i64 => true,
        _ => false,
    }
}

/// Whether `instr` belongs to this dispatch family.
pub open spec fn is_unary_op(instr: Instr) -> bool {
    match instr {
        Instr::not_u8 | Instr::not_i8 | Instr::not_u16 | Instr::not_i16 | Instr::not_u32 | Instr::not_i32 | Instr::not_u64 | Instr::not_i64 | Instr::neg_u8 | Instr::neg_i8 | Instr::neg_u16 | Instr::neg_i16 | Instr::neg_u32 | Instr::neg_i32 | Instr::neg_u64 | Instr::neg_i64 => true,
        _ => false,
    }
}

/// Whether `instr` belongs to this dispatch family.
pub open spec fn is_cmp_lt_op(instr: Instr) -> bool {
    match instr {
        Instr::lt_u8 | Instr::lt_i8 | Instr::lt_u16 | Instr::lt_i16 | Instr::lt_u32 | Instr::lt_i32 | Instr::lt_u64 | Instr::lt_i64 | Instr::lte_u8 | Instr::lte_i8 | Instr::lte_u16 | Instr::lte_i16 | Instr::lte_u32 | Instr::lte_i32 | Instr::lte_u64 | Instr::lte_i64 => true,
        _ => false,
    }
}

/// Whether `instr` belongs to this dispatch family.
pub open spec fn is_cmp_gt_op(instr: Instr) -> bool {
    match instr {
        Instr::gt_u8 | Instr::gt_i8 | Instr::gt_u16 | Instr::gt_i16 | Instr::gt_u32 | Instr::gt_i32 | Instr::gt_u64 | Instr::gt_i64 | Instr::gte_u8 | Instr::gte_i8 | Instr::gte_u16 | Instr::gte_i16 | Instr::gte_u32 | Instr::gte_i32 | Instr::gte_u64 | Instr::gte_i64 => true,
        _ => false,
    }
}

/// Whether `instr` belongs to this dispatch family.
pub open spec fn is_cmp_eq_op(instr: Instr) -> bool {
    match instr {
        Instr::eq_u8 | Instr::eq_i8 | Instr::eq_u16 | Instr::eq_i16 | Instr::eq_u32 | Instr::eq_i32 | Instr::eq_u64 | Instr::eq_i64 | Instr::neq_u8 | Instr::neq_i8 | Instr::neq_u16 | Instr::neq_i16 | Instr::neq_u32 | Instr::neq_i32 | Instr::neq_u64 | Instr::neq_i64 => true,
        _ => false,
    }
}

#[verifier::rlimit(100)]
#[verifier::spinoff_prover]
fn eval_control(p: &mut Process, mem: &mut Vec<u8>, instr: Instr) -> (r: Result<StepEvent, Fault>)
    requires
        is_control(instr),
    ensures
        evaluate_spec(old(p)@, old(mem)@, instr) matches Ok(o) ==> r == Ok::<StepEvent, Fault>(
            o.2,
        ) && final(p)@ == o.0 && final(mem)@ == o.1,
        evaluate_spec(old(p)@, old(mem)@, instr) matches Err(f) ==> r == Err::<StepEvent, Fault>(
            f,
        ) && final(mem)@ == old(mem)@ && final(p)@.state == old(p)@.state && final(p)@.regs == old(p)@.regs && final(p)@.function_stack == old(p)@.function_stack,
        final(p)@.program == old(p)@.program,
{
    match instr {
        Instr::nop => Ok(StepEvent::Ran),
        Instr::halt => {
            p.halt();
            Ok(StepEvent::Ran)
        },
        Instr::wait => {
            p.wait();
            Ok(StepEvent::Ran)
        },
        Instr::spawn => {
            let t = p.read_u64(mem)?;
            Ok(StepEvent::Spawn(t))
        },
        Instr::if_jmp => {
            p.if_jmp(mem)?;
            Ok(StepEvent::Ran)
        },
        Instr::jmp => {
            p.jmp(mem)?;
            Ok(StepEvent::Ran)
        },
        Instr::call => {
            p.call(mem)?;
            Ok(StepEvent::Ran)
        },
        Instr::ret => {
            if p.function_stack.len() == 0 {
                Err(Fault::StackUnderflow)
            } else {
                p.ret();
                Ok(StepEvent::Ran)
            }
        },
        _ => Err(Fault::InvalidOpcode),
    }
}

#[verifier::rlimit(100)]
#[verifier::spinoff_prover]
fn eval_push_8(p: &mut Process, mem: &mut Vec<u8>, instr: Instr) -> (r: Result<StepEvent, Fault>)
    requires
        is_push_8_op(instr),
    ensures
        push_narrow_spec(old(p)@, old(mem)@, instr) matches Ok(o) ==> r == Ok::<StepEvent, Fault>(
            o.2,
        ) && final(p)@ == o.0 && final(mem)@ == o.1,
        push_narrow_spec(old(p)@, old(mem)@, instr) matches Err(f) ==> r == Err::<StepEvent, Fault>(
            f,
        ) && final(mem)@ == old(mem)@ && final(p)@.state == old(p)@.state && final(p)@.regs == old(p)@.regs && final(p)@.function_stack == old(p)@.function_stack,
        final(p)@.program == old(p)@.program,
{
    match instr {
        Instr::push_u8 => {
            let x = p.read_u8(mem)?;
            p.push_u8(x);
            Ok(StepEvent::Ran)
        },
        Instr::push_i8 => {
            let x = p.read_u8(mem)?;
            p.push_u8(x);
            Ok(StepEvent::Ran)
        },
        _ => Err(Fault::InvalidOpcode),
    }
}

#[verifier::rlimit(100)]
#[verifier::spinoff_prover]
fn eval_push_16(p: &mut Process, mem: &mut Vec<u8>, instr: Instr) -> (r: Result<StepEvent, Fault>)
    requires
        is_push_16_op(instr),
    ensures
        push_narrow_spec(old(p)@, old(mem)@, instr) matches Ok(o) ==> r == Ok::<StepEvent, Fault>(
            o.2,
        ) && final(p)@ == o.0 && final(mem)@ == o.1,
        push_narrow_spec(old(p)@, old(mem)@, instr) matches Err(f) ==> r == Err::<StepEvent, Fault>(
            f,
        ) && final(mem)@ == old(mem)@ && final(p)@.state == old(p)@.state && final(p)@.regs == old(p)@.regs && final(p)@.function_stack == old(p)@.function_stack,
        final(p)@.program == old(p)@.program,
{
    match instr {
        Instr::push_u16 => {
            let x = p.read_u16(mem)?;
            p.push_u16(x);
            Ok(StepEvent::Ran)
        },
        Instr::push_i16 => {
            let x = p.read_u16(mem)?;
            p.push_u16(x);
            Ok(StepEvent::Ran)
        },
        _ => Err(Fault::InvalidOpcode),
    }
}

#[verifier::rlimit(100)]
#[verifier::spinoff_prover]
fn eval_copy_narrow(p: &mut Process, mem: &mut Vec<u8>, instr: Instr) -> (r: Result<StepEvent, Fault>)
    requires
        is_copy_narrow_op(instr),
    ensures
        copy_spec(old(p)@, old(mem)@, instr) matches Ok(o) ==> r == Ok::<StepEvent, Fault>(
            o.2,
        ) && final(p)@ == o.0 && final(mem)@ == o.1,
        copy_spec(old(p)@, old(mem)@, instr) matches Err(f) ==> r == Err::<StepEvent, Fault>(
            f,
        ) && final(mem)@ == old(mem)@ && final(p)@.state == old(p)@.state && final(p)@.regs == old(p)@.regs && final(p)@.function_stack == old(p)@.function_stack,
        final(p)@.program == old(p)@.program,
{
    match instr {
        Instr::copy_u8 => {
            if p.stack.len() < 1 {
                Err(Fault::StackUnderflow)
            } else {
                p.copy_u8();
                Ok(StepEvent::Ran)
            }
        },
        Instr::copy_i8 => {
            if p.stack.len() < 1 {
                Err(Fault::StackUnderflow)
            } else {
                p.copy_u8();
                Ok(StepEvent::Ran)
            }
        },
        Instr::copy_u16 => {
            if p.stack.len() < 2 {
                Err(Fault::StackUnderflow)
            } else {
                p.copy_u16();
                Ok(StepEvent::Ran)
            }
        },
        Instr::copy_i16 => {
            if p.stack.len() < 2 {
                Err(Fault::StackUnderflow)
            } else {
                p.copy_u16();
                Ok(StepEvent::Ran)
            }
        },
        _ => Err(Fault::InvalidOpcode),
    }
}

#[verifier::rlimit(100)]
#[verifier::spinoff_prover]
fn eval_copy_wide(p: &mut Process, mem: &mut Vec<u8>, instr: Instr) -> (r: Result<StepEvent, Fault>)
    requires
        is_copy_wide_op(instr),
    ensures
        copy_spec(old(p)@, old(mem)@, instr) matches Ok(o) ==> r == Ok::<StepEvent, Fault>(
            o.2,
        ) && final(p)@ == o.0 && final(mem)@ == o.1,
        copy_spec(old(p)@, old(mem)@, instr) matches Err(f) ==> r == Err::<StepEvent, Fault>(
            f,
        ) && final(mem)@ == old(mem)@ && final(p)@.state == old(p)@.state && final(p)@.regs == old(p)@.regs && final(p)@.function_stack == old(p)@.function_stack,
        final(p)@.program == old(p)@.program,
{
    match instr {
        Instr::copy_u32 => {
            if p.stack.len() < 4 {
                Err(Fault::StackUnderflow)
            } else {
                p.copy_u32();
                Ok(StepEvent::Ran)
            }
        },
        Instr::copy_i32 => {
            if p.stack.len() < 4 {
                Err(Fault::StackUnderflow)
            } else {
                p.copy_u32();
                Ok(StepEvent::Ran)
            }
        },
        Instr::copy_f32 => {
            if p.stack.len() < 4 {
                Err(Fault::StackUnderflow)
            } else {
                p.copy_u32();
                Ok(StepEvent::Ran)
            }
        },
        Instr::copy_u64 => {
            if p.stack.len() < 8 {
                Err(Fault::StackUnderflow)
            } else {
                p.copy_u64();
                Ok(StepEvent::Ran)
            }
        },
        Instr::copy_i64 => {
            if p.stack.len() < 8 {
                Err(Fault::StackUnderflow)
            } else {
                p.copy_u64();
                Ok(StepEvent::Ran)
            }
        },
        Instr::copy_f64 => {
            if p.stack.len() < 8 {
                Err(Fault::StackUnderflow)
            } else {
                p.copy_u64();
                Ok(StepEvent::Ran)
            }
        },
        _ => Err(Fault::InvalidOpcode),
    }
}

#[verifier::rlimit(100)]
#[verifier::spinoff_prover]
fn eval_push_wide(p: &mut Process, mem: &mut Vec<u8>, instr: Instr) -> (r: Result<StepEvent, Fault>)
    requires
        is_push_wide_op(instr),
    ensures
        evaluate_spec(old(p)@, old(mem)@, instr) matches Ok(o) ==> r == Ok::<StepEvent, Fault>(
            o.2,
        ) && final(p)@ == o.0 && final(mem)@ == o.1,
        evaluate_spec(old(p)@, old(mem)@, instr) matches Err(f) ==> r == Err::<StepEvent, Fault>(
            f,
        ) && final(mem)@ == old(mem)@ && final(p)@.state == old(p)@.state && final(p)@.regs == old(p)@.regs && final(p)@.function_stack == old(p)@.function_stack,
        final(p)@.program == old(p)@.program,
{
    match instr {
        Instr::push_u32 => {
            let x = p.read_u32(mem)?;
            p.push_u32(x);
            Ok(StepEvent::Ran)
        },
        Instr::push_i32 => {
            let x = p.read_u32(mem)?;
            p.push_u32(x);
            Ok(StepEvent::Ran)
        },
        Instr::push_f32 => {
            let x = p.read_u32(mem)?;
            p.push_u32(x);
            Ok(StepEvent::Ran)
        },
        Instr::push_u64 => {
            let x = p.read_u64(mem)?;
            p.push_u64(x);
            Ok(StepEvent::Ran)
        },
        Instr::push_i64 => {
            let x = p.read_u64(mem)?;
            p.push_u64(x);
            Ok(StepEvent::Ran)
        },
        Instr::push_f64 => {
            let x = p.read_u64(mem)?;
            p.push_u64(x);
            Ok(StepEvent::Ran)
        },
        _ => Err(Fault::InvalidOpcode),
    }
}

#[verifier::rlimit(100)]
#[verifier::spinoff_prover]
fn eval_pop(p: &mut Process, mem: &mut Vec<u8>, instr: Instr) -> (r: Result<StepEvent, Fault>)
    requires
        is_pop_op(instr),
    ensures
        evaluate_spec(old(p)@, old(mem)@, instr) matches Ok(o) ==> r == Ok::<StepEvent, Fault>(
            o.2,
        ) && final(p)@ == o.0 && final(mem)@ == o.1,
        evaluate_spec(old(p)@, old(mem)@, instr) matches Err(f) ==> r == Err::<StepEvent, Fault>(
            f,
        ) && final(mem)@ == old(mem)@ && final(p)@.state == old(p)@.state && final(p)@.regs == old(p)@.regs && final(p)@.function_stack == old(p)@.function_stack,
        final(p)@.program == old(p)@.program,
{
    match instr {
        Instr::pop_u8 => {
            if p.stack.len() < 1 {
                Err(Fault::StackUnderflow)
            } else {
                p.pop_u8();
                Ok(StepEvent::Ran)
            }
        },
        Instr::pop_i8 => {
            if p.stack.len() < 1 {
                Err(Fault::StackUnderflow)
            } else {
                p.pop_u8();
                Ok(StepEvent::Ran)
            }
        },
        Instr::pop_u16 => {
            if p.stack.len() < 2 {
                Err(Fault::StackUnderflow)
            } else {
                p.pop_u16();
                Ok(StepEvent::Ran)
            }
        },
        Instr::pop_i16 => {
            if p.stack.len() < 2 {
                Err(Fault::StackUnderflow)
            } else {
                p.pop_u16();
                Ok(StepEvent::Ran)
            }
        },
        Instr::pop_u32 => {
            if p.stack.len() < 4 {
                Err(Fault::StackUnderflow)
            } else {
                p.pop_u32();
                Ok(StepEvent::Ran)
            }
        },
        Instr::pop_i32 => {
            if p.stack.len() < 4 {
                Err(Fault::StackUnderflow)
            } else {
                p.pop_u32();
                Ok(StepEvent::Ran)
            }
        },
        Instr::pop_f32 => {
            if p.stack.len() < 4 {
                Err(Fault::StackUnderflow)
            } else {
                p.pop_u32();
                Ok(StepEvent::Ran)
            }
        },
        Instr::pop_u64 => {
            if p.stack.len() < 8 {
                Err(Fault::StackUnderflow)
            } else {
                p.pop_u64();
                Ok(StepEvent::Ran)
            }
        },
        Instr::pop_i64 => {
            if p.stack.len() < 8 {
                Err(Fault::StackUnderflow)
            } else {
                p.pop_u64();
                Ok(StepEvent::Ran)
            }
        },
        Instr::pop_f64 => {
            if p.stack.len() < 8 {
                Err(Fault::StackUnderflow)
            } else {
                p.pop_u64();
                Ok(StepEvent::Ran)
            }
        },
        _ => Err(Fault::InvalidOpcode),
    }
}

#[verifier::rlimit(100)]
#[verifier::spinoff_prover]
fn eval_memory(p: &mut Process, mem: &mut Vec<u8>, instr: Instr) -> (r: Result<StepEvent, Fault>)
    requires
        is_memory_op(instr),
    ensures
        evaluate_spec(old(p)@, old(mem)@, instr) matches Ok(o) ==> r == Ok::<StepEvent, Fault>(
            o.2,
        ) && final(p)@ == o.0 && final(mem)@ == o.1,
        evaluate_spec(old(p)@, old(mem)@, instr) matches Err(f) ==> r == Err::<StepEvent, Fault>(
            f,
        ) && final(mem)@ == old(mem)@ && final(p)@.state == old(p)@.state && final(p)@.regs == old(p)@.regs && final(p)@.function_stack == old(p)@.function_stack,
        final(p)@.program == old(p)@.program,
{
    match instr {
        Instr::load_u8 | Instr::load_i8 => {
            p.load_u8(mem)?;
            Ok(StepEvent::Ran)
        },
        Instr::load_u16 | Instr::load_i16 => {
            p.load_u16(mem)?;
            Ok(StepEvent::Ran)
        },
        Instr::load_u32 | Instr::load_i32 | Instr::load_f32 => {
            p.load_u32(mem)?;
            Ok(StepEvent::Ran)
        },
        Instr::load_u64 | Instr::load_i64 | Instr::load_f64 => {
            p.load_u64(mem)?;
            Ok(StepEvent::Ran)
        },
        Instr::save_u8 | Instr::save_i8 => {
            p.save_u8(mem)?;
            Ok(StepEvent::Ran)
        },
        Instr::save_u16 | Instr::save_i16 => {
            p.save_u16(mem)?;
            Ok(StepEvent::Ran)
        },
        Instr::save_u32 | Instr::save_i32 | Instr::save_f32 => {
            p.save_u32(mem)?;
            Ok(StepEvent::Ran)
        },
        Instr::save_u64 | Instr::save_i64 | Instr::save_f64 => {
            p.save_u64(mem)?;
            Ok(StepEvent::Ran)
        },
        _ => Err(Fault::InvalidOpcode),
    }
}

#[verifier::rlimit(100)]
#[verifier::spinoff_prover]
fn eval_wrap(p: &mut Process, mem: &mut Vec<u8>, instr: Instr) -> (r: Result<StepEvent, Fault>)
    requires
        is_wrap_op(instr),
    ensures
        evaluate_spec(old(p)@, old(mem)@, instr) matches Ok(o) ==> r == Ok::<StepEvent, Fault>(
            o.2,
        ) && final(p)@ == o.0 && final(mem)@ == o.1,
        evaluate_spec(old(p)@, old(mem)@, instr) matches Err(f) ==> r == Err::<StepEvent, Fault>(
            f,
        ) && final(mem)@ == old(mem)@ && final(p)@.state == old(p)@.state && final(p)@.regs == old(p)@.regs && final(p)@.function_stack == old(p)@.function_stack,
        final(p)@.program == old(p)@.program,
{
    match instr {
        Instr::add_u8 => {
            if p.stack.len() < 2 {
                Err(Fault::StackUnderflow)
            } else {
                p.add_u8();
                Ok(StepEvent::Ran)
            }
        },
        Instr::add_i8 => {
            if p.stack.len() < 2 {
                Err(Fault::StackUnderflow)
            } else {
                p.add_i8();
                Ok(StepEvent::Ran)
            }
        },
        Instr::add_u16 => {
            if p.stack.len() < 4 {
                Err(Fault::StackUnderflow)
            } else {
                p.add_u16();
                Ok(StepEvent::Ran)
            }
        },
        Instr::add_i16 => {
            if p.stack.len() < 4 {
                Err(Fault::StackUnderflow)
            } else {
                p.add_i16();
                Ok(StepEvent::Ran)
            }
        },
        Instr::add_u32 => {
            if p.stack.len() < 8 {
                Err(Fault::StackUnderflow)
            } else {
                p.add_u32();
                Ok(StepEvent::Ran)
            }
        },
        Instr::add_i32 => {
            if p.stack.len() < 8 {
                Err(Fault::StackUnderflow)
            } else {
                p.add_i32();
                Ok(StepEvent::Ran)
            }
        },
        Instr::add_u64 => {
            if p.stack.len() < 16 {
                Err(Fault::StackUnderflow)
            } else {
                p.add_u64();
                Ok(StepEvent::Ran)
            }
        },
        Instr::add_i64 => {
            if p.stack.len() < 16 {
                Err(Fault::StackUnderflow)
            } else {
                p.add_i64();
                Ok(StepEvent::Ran)
            }
        },
        Instr::sub_u8 => {
            if p.stack.len() < 2 {
                Err(Fault::StackUnderflow)
            } else {
                p.sub_u8();
                Ok(StepEvent::Ran)
            }
        },
        Instr::sub_i8 => {
            if p.stack.len() < 2 {
                Err(Fault::StackUnderflow)
            } else {
                p.sub_i8();
                Ok(StepEvent::Ran)
            }
        },
        Instr::sub_u16 => {
            if p.stack.len() < 4 {
                Err(Fault::StackUnderflow)
            } else {
                p.sub_u16();
                Ok(StepEvent::Ran)
            }
        },
        Instr::sub_i16 => {
            if p.stack.len() < 4 {
                Err(Fault::StackUnderflow)
            } else {
                p.sub_i16();
                Ok(StepEvent::Ran)
            }
        },
        Instr::sub_u32 => {
            if p.stack.len() < 8 {
                Err(Fault::StackUnderflow)
            } else {
                p.sub_u32();
                Ok(StepEvent::Ran)
            }
        },
        Instr::sub_i32 => {
            if p.stack.len() < 8 {
                Err(Fault::StackUnderflow)
            } else {
                p.sub_i32();
                Ok(StepEvent::Ran)
            }
        },
        Instr::sub_u64 => {
            if p.stack.len() < 16 {
                Err(Fault::StackUnderflow)
            } else {
                p.sub_u64();
                Ok(StepEvent::Ran)
            }
        },
        Instr::sub_i64 => {
            if p.stack.len() < 16 {
                Err(Fault::StackUnderflow)
            } else {
                p.sub_i64();
                Ok(StepEvent::Ran)
            }
        },
        Instr::mul_u8 => {
            if p.stack.len() < 2 {
                Err(Fault::StackUnderflow)
            } else {
                p.mul_u8();
                Ok(StepEvent::Ran)
            }
        },
        Instr::mul_i8 => {
            if p.stack.len() < 2 {
                Err(Fault::StackUnderflow)
            } else {
                p.mul_i8();
                Ok(StepEvent::Ran)
            }
        },
        Instr::mul_u16 => {
            if p.stack.len() < 4 {
                Err(Fault::StackUnderflow)
            } else {
                p.mul_u16();
                Ok(StepEvent::Ran)
            }
        },
        Instr::mul_i16 => {
            if p.stack.len() < 4 {
                Err(Fault::StackUnderflow)
            } else {
                p.mul_i16();
                Ok(StepEvent::Ran)
            }
        },
        Instr::mul_u32 => {
            if p.stack.len() < 8 {
                Err(Fault::StackUnderflow)
            } else {
                p.mul_u32();
                Ok(StepEvent::Ran)
            }
        },
        Instr::mul_i32 => {
            if p.stack.len() < 8 {
                Err(Fault::StackUnderflow)
            } else {
                p.mul_i32();
                Ok(StepEvent::Ran)
            }
        },
        Instr::mul_u64 => {
            if p.stack.len() < 16 {
                Err(Fault::StackUnderflow)
            } else {
                p.mul_u64();
                Ok(StepEvent::Ran)
            }
        },
        Instr::mul_i64 => {
            if p.stack.len() < 16 {
                Err(Fault::StackUnderflow)
            } else {
                p.mul_i64();
                Ok(StepEvent::Ran)
            }
        },
        _ => Err(Fault::InvalidOpcode),
    }
}

#[verifier::rlimit(100)]
#[verifier::spinoff_prover]
fn eval_divrem(p: &mut Process, mem: &mut Vec<u8>, instr: Instr) -> (r: Result<StepEvent, Fault>)
    requires
        is_divrem_op(instr),
    ensures
        evaluate_spec(old(p)@, old(mem)@, instr) matches Ok(o) ==> r == Ok::<StepEvent, Fault>(
            o.2,
        ) && final(p)@ == o.0 && final(mem)@ == o.1,
        evaluate_spec(old(p)@, old(mem)@, instr) matches Err(f) ==> r == Err::<StepEvent, Fault>(
            f,
        ) && final(mem)@ == old(mem)@ && final(p)@.state == old(p)@.state && final(p)@.regs == old(p)@.regs && final(p)@.function_stack == old(p)@.function_stack,
        final(p)@.program == old(p)@.program,
{
    match instr {
        Instr::div_u8 => {
            if p.stack.len() < 2 {
                Err(Fault::StackUnderflow)
            } else if p.peek_u8(0) == 0 {
                Err(Fault::DivideByZero)
            } else {
                p.div_u8();
                Ok(StepEvent::Ran)
            }
        },
        Instr::div_i8 => {
            if p.stack.len() < 2 {
                Err(Fault::StackUnderflow)
            } else if p.peek_u8(0) as i8 == 0 {
                Err(Fault::DivideByZero)
            } else {
                p.div_i8();
                Ok(StepEvent::Ran)
            }
        },
        Instr::div_u16 => {
            if p.stack.len() < 4 {
                Err(Fault::StackUnderflow)
            } else if p.peek_u16(0) == 0 {
                Err(Fault::DivideByZero)
            } else {
                p.div_u16();
                Ok(StepEvent::Ran)
            }
        },
        Instr::div_i16 => {
            if p.stack.len() < 4 {
                Err(Fault::StackUnderflow)
            } else if p.peek_u16(0) as i16 == 0 {
                Err(Fault::DivideByZero)
            } else {
                p.div_i16();
                Ok(StepEvent::Ran)
            }
        },
        Instr::div_u32 => {
            if p.stack.len() < 8 {
                Err(Fault::StackUnderflow)
            } else if p.peek_u32(0) == 0 {
                Err(Fault::DivideByZero)
            } else {
                p.div_u32();
                Ok(StepEvent::Ran)
            }
        },
        Instr::div_i32 => {
            if p.stack.len() < 8 {
                Err(Fault::StackUnderflow)
            } else if p.peek_u32(0) as i32 == 0 {
                Err(Fault::DivideByZero)
            } else {
                p.div_i32();
                Ok(StepEvent::Ran)
            }
        },
        Instr::div_u64 => {
            if p.stack.len() < 16 {
                Err(Fault::StackUnderflow)
            } else if p.peek_u64(0) == 0 {
                Err(Fault::DivideByZero)
            } else {
                p.div_u64();
                Ok(StepEvent::Ran)
            }
        },
        Instr::div_i64 => {
            if p.stack.len() < 16 {
                Err(Fault::StackUnderflow)
            } else if p.peek_u64(0) as i64 == 0 {
                Err(Fault::DivideByZero)
            } else {
                p.div_i64();
                Ok(StepEvent::Ran)
            }
        },
        Instr::rem_u8 => {
            if p.stack.len() < 2 {
                Err(Fault::StackUnderflow)
            } else if p.peek_u8(0) == 0 {
                Err(Fault::DivideByZero)
            } else {
                p.rem_u8();
                Ok(StepEvent::Ran)
            }
        },
        Instr::rem_i8 => {
            if p.stack.len() < 2 {
                Err(Fault::StackUnderflow)
            } else if p.peek_u8(0) as i8 == 0 {
                Err(Fault::DivideByZero)
            } else {
                p.rem_i8();
                Ok(StepEvent::Ran)
            }
        },
        Instr::rem_u16 => {
            if p.stack.len() < 4 {
                Err(Fault::StackUnderflow)
            } else if p.peek_u16(0) == 0 {
                Err(Fault::DivideByZero)
            } else {
                p.rem_u16();
                Ok(StepEvent::Ran)
            }
        },
        Instr::rem_i16 => {
            if p.stack.len() < 4 {
                Err(Fault::StackUnderflow)
            } else if p.peek_u16(0) as i16 == 0 {
                Err(Fault::DivideByZero)
            } else {
                p.rem_i16();
                Ok(StepEvent::Ran)
            }
        },
        Instr::rem_u32 => {
            if p.stack.len() < 8 {
                Err(Fault::StackUnderflow)
            } else if p.peek_u32(0) == 0 {
                Err(Fault::DivideByZero)
            } else {
                p.rem_u32();
                Ok(StepEvent::Ran)
            }
        },
        Instr::rem_i32 => {
            if p.stack.len() < 8 {
                Err(Fault::StackUnderflow)
            } else if p.peek_u32(0) as i32 == 0 {
                Err(Fault::DivideByZero)
            } else {
                p.rem_i32();
                Ok(StepEvent::Ran)
            }
        },
        Instr::rem_u64 => {
            if p.stack.len() < 16 {
                Err(Fault::StackUnderflow)
            } else if p.peek_u64(0) == 0 {
                Err(Fault::DivideByZero)
            } else {
                p.rem_u64();
                Ok(StepEvent::Ran)
            }
        },
        Instr::rem_i64 => {
            if p.stack.len() < 16 {
                Err(Fault::StackUnderflow)
            } else if p.peek_u64(0) as i64 == 0 {
                Err(Fault::DivideByZero)
            } else {
                p.rem_i64();
                Ok(StepEvent::Ran)
            }
        },
        _ => Err(Fault::InvalidOpcode),
    }
}

#[verifier::rlimit(100)]
#[verifier::spinoff_prover]
fn eval_logic(p: &mut Process, mem: &mut Vec<u8>, instr: Instr) -> (r: Result<StepEvent, Fault>)
    requires
        is_logic_op(instr),
    ensures
        evaluate_spec(old(p)@, old(mem)@, instr) matches Ok(o) ==> r == Ok::<StepEvent, Fault>(
            o.2,
        ) && final(p)@ == o.0 && final(mem)@ == o.1,
        evaluate_spec(old(p)@, old(mem)@, instr) matches Err(f) ==> r == Err::<StepEvent, Fault>(
            f,
        ) && final(mem)@ == old(mem)@ && final(p)@.state == old(p)@.state && final(p)@.regs == old(p)@.regs && final(p)@.function_stack == old(p)@.function_stack,
        final(p)@.program == old(p)@.program,
{
    match instr {
        Instr::and_u8 => {
            if p.stack.len() < 2 {
                Err(Fault::StackUnderflow)
            } else {
                p.and_u8();
                Ok(StepEvent::Ran)
            }
        },
        Instr::and_i8 => {
            if p.stack.len() < 2 {
                Err(Fault::StackUnderflow)
            } else {
                p.and_i8();
                Ok(StepEvent::Ran)
            }
        },
        Instr::and_u16 => {
            if p.stack.len() < 4 {
                Err(Fault::StackUnderflow)
            } else {
                p.and_u16();
                Ok(StepEvent::Ran)
            }
        },
        Instr::and_i16 => {
            if p.stack.len() < 4 {
                Err(Fault::StackUnderflow)
            } else {
                p.and_i16();
                Ok(StepEvent::Ran)
            }
        },
        Instr::and_u32 => {
            if p.stack.len() < 8 {
                Err(Fault::StackUnderflow)
            } else {
                p.and_u32();
                Ok(StepEvent::Ran)
            }
        },
        Instr::and_i32 => {
            if p.stack.len() < 8 {
                Err(Fault::StackUnderflow)
            } else {
                p.and_i32();
                Ok(StepEvent::Ran)
            }
        },
        Instr::and_u64 => {
            if p.stack.len() < 16 {
                Err(Fault::StackUnderflow)
            } else {
                p.and_u64();
                Ok(StepEvent::Ran)
            }
        },
        Instr::and_i64 => {
            if p.stack.len() < 16 {
                Err(Fault::StackUnderflow)
            } else {
                p.and_i64();
                Ok(StepEvent::Ran)
            }
        },
        Instr::or_u8 => {
            if p.stack.len() < 2 {
                Err(Fault::StackUnderflow)
            } else {
                p.or_u8();
                Ok(StepEvent::Ran)
            }
        },
        Instr::or_i8 => {
            if p.stack.len() < 2 {
                Err(Fault::StackUnderflow)
            } else {
                p.or_i8();
                Ok(StepEvent::Ran)
            }
        },
        Instr::or_u16 => {
            if p.stack.len() < 4 {
                Err(Fault::StackUnderflow)
            } else {
                p.or_u16();
                Ok(StepEvent::Ran)
            }
        },
        Instr::or_i16 => {
            if p.stack.len() < 4 {
                Err(Fault::StackUnderflow)
            } else {
                p.or_i16();
                Ok(StepEvent::Ran)
            }
        },
        Instr::or_u32 => {
            if p.stack.len() < 8 {
                Err(Fault::StackUnderflow)
            } else {
                p.or_u32();
                Ok(StepEvent::Ran)
            }
        },
        Instr::or_i32 => {
            if p.stack.len() < 8 {
                Err(Fault::StackUnderflow)
            } else {
                p.or_i32();
                Ok(StepEvent::Ran)
            }
        },
        Instr::or_u64 => {
            if p.stack.len() < 16 {
                Err(Fault::StackUnderflow)
            } else {
                p.or_u64();
                Ok(StepEvent::Ran)
            }
        },
        Instr::or_i64 => {
            if p.stack.len() < 16 {
                Err(Fault::StackUnderflow)
            } else {
                p.or_i64();
                Ok(StepEvent::Ran)
            }
        },
        Instr::xor_u8 => {
            if p.stack.len() < 2 {
                Err(Fault::StackUnderflow)
            } else {
                p.xor_u8();
                Ok(StepEvent::Ran)
            }
        },
        Instr::xor_i8 => {
            if p.stack.len() < 2 {
                Err(Fault::StackUnderflow)
            } else {
                p.xor_i8();
                Ok(StepEvent::Ran)
            }
        },
        Instr::xor_u16 => {
            if p.stack.len() < 4 {
                Err(Fault::StackUnderflow)
            } else {
                p.xor_u16();
                Ok(StepEvent::Ran)
            }
        },
        Instr::xor_i16 => {
            if p.stack.len() < 4 {
                Err(Fault::StackUnderflow)
            } else {
                p.xor_i16();
                Ok(StepEvent::Ran)
            }
        },
        Instr::xor_u32 => {
            if p.stack.len() < 8 {
                Err(Fault::StackUnderflow)
            } else {
                p.xor_u32();
                Ok(StepEvent::Ran)
            }
        },
        Instr::xor_i32 => {
            if p.stack.len() < 8 {
                Err(Fault::StackUnderflow)
            } else {
                p.xor_i32();
                Ok(StepEvent::Ran)
            }
        },
        Instr::xor_u64 => {
            if p.stack.len() < 16 {
                Err(Fault::StackUnderflow)
            } else {
                p.xor_u64();
                Ok(StepEvent::Ran)
            }
        },
        Instr::xor_i64 => {
            if p.stack.len() < 16 {
                Err(Fault::StackUnderflow)
            } else {
                p.xor_i64();
                Ok(StepEvent::Ran)
            }
        },
        _ => Err(Fault::InvalidOpcode),
    }
}

#[verifier::rlimit(100)]
#[verifier::spinoff_prover]
fn eval_shift(p: &mut Process, mem: &mut Vec<u8>, instr: Instr) -> (r: Result<StepEvent, Fault>)
    requires
        is_shift_op(instr),
    ensures
        evaluate_spec(old(p)@, old(mem)@, instr) matches Ok(o) ==> r == Ok::<StepEvent, Fault>(
            o.2,
        ) && final(p)@ == o.0 && final(mem)@ == o.1,
        evaluate_spec(old(p)@, old(mem)@, instr) matches Err(f) ==> r == Err::<StepEvent, Fault>(
            f,
        ) && final(mem)@ == old(mem)@ && final(p)@.state == old(p)@.state && final(p)@.regs == old(p)@.regs && final(p)@.function_stack == old(p)@.function_stack,
        final(p)@.program == old(p)@.program,
{
    match instr {
        Instr::shl_u8 => {
            if p.stack.len() < 2 {
                Err(Fault::StackUnderflow)
            } else {
                p.shl_u8();
                Ok(StepEvent::Ran)
            }
        },
        Instr::shl_i8 => {
            if p.stack.len() < 2 {
                Err(Fault::StackUnderflow)
            } else {
                p.shl_i8();
                Ok(StepEvent::Ran)
            }
        },
        Instr::shl_u16 => {
            if p.stack.len() < 4 {
                Err(Fault::StackUnderflow)
            } else {
                p.shl_u16();
                Ok(StepEvent::Ran)
            }
        },
        Instr::shl_i16 => {
            if p.stack.len() < 4 {
                Err(Fault::StackUnderflow)
            } else {
                p.shl_i16();
                Ok(StepEvent::Ran)
            }
        },
        Instr::shl_u32 => {
            if p.stack.len() < 8 {
                Err(Fault::StackUnderflow)
            } else {
                p.shl_u32();
                Ok(StepEvent::Ran)
            }
        },
        Instr::shl_i32 => {
            if p.stack.len() < 8 {
                Err(Fault::StackUnderflow)
            } else {
                p.shl_i32();
                Ok(StepEvent::Ran)
            }
        },
        Instr::shl_u64 => {
            if p.stack.len() < 16 {
                Err(Fault::StackUnderflow)
            } else {
                p.shl_u64();
                Ok(StepEvent::Ran)
            }
        },
        Instr::shl_i64 => {
            if p.stack.len() < 16 {
                Err(Fault::StackUnderflow)
            } else {
                p.shl_i64();
                Ok(StepEvent::Ran)
            }
        },
        Instr::shr_u8 => {
            if p.stack.len() < 2 {
                Err(Fault::StackUnderflow)
            } else {
                p.shr_u8();
                Ok(StepEvent::Ran)
            }
        },
        Instr::shr_i8 => {
            if p.stack.len() < 2 {
                Err(Fault::StackUnderflow)
            } else {
                p.shr_i8();
                Ok(StepEvent::Ran)
            }
        },
        Instr::shr_u16 => {
            if p.stack.len() < 4 {
                Err(Fault::StackUnderflow)
            } else {
                p.shr_u16();
                Ok(StepEvent::Ran)
            }
        },
        Instr::shr_i16 => {
            if p.stack.len() < 4 {
                Err(Fault::StackUnderflow)
            } else {
                p.shr_i16();
                Ok(StepEvent::Ran)
            }
        },
        Instr::shr_u32 => {
            if p.stack.len() < 8 {
                Err(Fault::StackUnderflow)
            } else {
                p.shr_u32();
                Ok(StepEvent::Ran)
            }
        },
        Instr::shr_i32 => {
            if p.stack.len() < 8 {
                Err(Fault::StackUnderflow)
            } else {
                p.shr_i32();
                Ok(StepEvent::Ran)
            }
        },
        Instr::shr_u64 => {
            if p.stack.len() < 16 {
                Err(Fault::StackUnderflow)
            } else {
                p.shr_u64();
                Ok(StepEvent::Ran)
            }
        },
        Instr::shr_i64 => {
            if p.stack.len() < 16 {
                Err(Fault::StackUnderflow)
            } else {
                p.shr_i64();
                Ok(StepEvent::Ran)
            }
        },
        _ => Err(Fault::InvalidOpcode),
    }
}

#[verifier::rlimit(100)]
#[verifier::spinoff_prover]
fn eval_unary(p: &mut Process, mem: &mut Vec<u8>, instr: Instr) -> (r: Result<StepEvent, Fault>)
    requires
        is_unary_op(instr),
    ensures
        evaluate_spec(old(p)@, old(mem)@, instr) matches Ok(o) ==> r == Ok::<StepEvent, Fault>(
            o.2,
        ) && final(p)@ == o.0 && final(mem)@ == o.1,
        evaluate_spec(old(p)@, old(mem)@, instr) matches Err(f) ==> r == Err::<StepEvent, Fault>(
            f,
        ) && final(mem)@ == old(mem)@ && final(p)@.state == old(p)@.state && final(p)@.regs == old(p)@.regs && final(p)@.function_stack == old(p)@.function_stack,
        final(p)@.program == old(p)@.program,
{
    match instr {
        Instr::not_u8 => {
            if p.stack.len() < 1 {
                Err(Fault::StackUnderflow)
            } else {
                p.not_u8();
                Ok(StepEvent::Ran)
            }
        },
        Instr::not_i8 => {
            if p.stack.len() < 1 {
                Err(Fault::StackUnderflow)
            } else {
                p.not_i8();
                Ok(StepEvent::Ran)
            }
        },
        Instr::not_u16 => {
            if p.stack.len() < 2 {
                Err(Fault::StackUnderflow)
            } else {
                p.not_u16();
                Ok(StepEvent::Ran)
            }
        },
        Instr::not_i16 => {
            if p.stack.len() < 2 {
                Err(Fault::StackUnderflow)
            } else {
                p.not_i16();
                Ok(StepEvent::Ran)
            }
        },
        Instr::not_u32 => {
            if p.stack.len() < 4 {
                Err(Fault::StackUnderflow)
            } else {
                p.not_u32();
                Ok(StepEvent::Ran)
            }
        },
        Instr::not_i32 => {
            if p.stack.len() < 4 {
                Err(Fault::StackUnderflow)
            } else {
                p.not_i32();
                Ok(StepEvent::Ran)
            }
        },
        Instr::not_u64 => {
            if p.stack.len() < 8 {
                Err(Fault::StackUnderflow)
            } else {
                p.not_u64();
                Ok(StepEvent::Ran)
            }
        },
        Instr::not_i64 => {
            if p.stack.len() < 8 {
                Err(Fault::StackUnderflow)
            } else {
                p.not_i64();
                Ok(StepEvent::Ran)
            }
        },
        Instr::neg_u8 => {
            if p.stack.len() < 1 {
                Err(Fault::StackUnderflow)
            } else {
                p.neg_u8();
                Ok(StepEvent::Ran)
            }
        },
        Instr::neg_i8 => {
            if p.stack.len() < 1 {
                Err(Fault::StackUnderflow)
            } else {
                p.neg_i8();
                Ok(StepEvent::Ran)
            }
        },
        Instr::neg_u16 => {
            if p.stack.len() < 2 {
                Err(Fault::StackUnderflow)
            } else {
                p.neg_u16();
                Ok(StepEvent::Ran)
            }
        },
        Instr::neg_i16 => {
            if p.stack.len() < 2 {
                Err(Fault::StackUnderflow)
            } else {
                p.neg_i16();
                Ok(StepEvent::Ran)
            }
        },
        Instr::neg_u32 => {
            if p.stack.len() < 4 {
                Err(Fault::StackUnderflow)
            } else {
                p.neg_u32();
                Ok(StepEvent::Ran)
            }
        },
        Instr::neg_i32 => {
            if p.stack.len() < 4 {
                Err(Fault::StackUnderflow)
            } else {
                p.neg_i32();
                Ok(StepEvent::Ran)
            }
        },
        Instr::neg_u64 => {
            if p.stack.len() < 8 {
                Err(Fault::StackUnderflow)
            } else {
                p.neg_u64();
                Ok(StepEvent::Ran)
            }
        },
        Instr::neg_i64 => {
            if p.stack.len() < 8 {
                Err(Fault::StackUnderflow)
            } else {
                p.neg_i64();
                Ok(StepEvent::Ran)
            }
        },
        _ => Err(Fault::InvalidOpcode),
    }
}

#[verifier::rlimit(100)]
#[verifier::spinoff_prover]
fn eval_cmp_lt(p: &mut Process, mem: &mut Vec<u8>, instr: Instr) -> (r: Result<StepEvent, Fault>)
    requires
        is_cmp_lt_op(instr),
    ensures
        evaluate_spec(old(p)@, old(mem)@, instr) matches Ok(o) ==> r == Ok::<StepEvent, Fault>(
            o.2,
        ) && final(p)@ == o.0 && final(mem)@ == o.1,
        evaluate_spec(old(p)@, old(mem)@, instr) matches Err(f) ==> r == Err::<StepEvent, Fault>(
            f,
        ) && final(mem)@ == old(mem)@ && final(p)@.state == old(p)@.state && final(p)@.regs == old(p)@.regs && final(p)@.function_stack == old(p)@.function_stack,
        final(p)@.program == old(p)@.program,
{
    match instr {
        Instr::lt_u8 => {
            if p.stack.len() < 2 {
                Err(Fault::StackUnderflow)
            } else {
                p.lt_u8();
                Ok(StepEvent::Ran)
            }
        },
        Instr::lt_i8 => {
            if p.stack.len() < 2 {
                Err(Fault::StackUnderflow)
            } else {
                p.lt_i8();
                Ok(StepEvent::Ran)
            }
        },
        Instr::lt_u16 => {
            if p.stack.len() < 4 {
                Err(Fault::StackUnderflow)
            } else {
                p.lt_u16();
                Ok(StepEvent::Ran)
            }
        },
        Instr::lt_i16 => {
            if p.stack.len() < 4 {
                Err(Fault::StackUnderflow)
            } else {
                p.lt_i16();
                Ok(StepEvent::Ran)
            }
        },
        Instr::lt_u32 => {
            if p.stack.len() < 8 {
                Err(Fault::StackUnderflow)
            } else {
                p.lt_u32();
                Ok(StepEvent::Ran)
            }
        },
        Instr::lt_i32 => {
            if p.stack.len() < 8 {
                Err(Fault::StackUnderflow)
            } else {
                p.lt_i32();
                Ok(StepEvent::Ran)
            }
        },
        Instr::lt_u64 => {
            if p.stack.len() < 16 {
                Err(Fault::StackUnderflow)
            } else {
                p.lt_u64();
                Ok(StepEvent::Ran)
            }
        },
        Instr::lt_i64 => {
            if p.stack.len() < 16 {
                Err(Fault::StackUnderflow)
            } else {
                p.lt_i64();
                Ok(StepEvent::Ran)
            }
        },
        Instr::lte_u8 => {
            if p.stack.len() < 2 {
                Err(Fault::StackUnderflow)
            } else {
                p.lte_u8();
                Ok(StepEvent::Ran)
            }
        },
        Instr::lte_i8 => {
            if p.stack.len() < 2 {
                Err(Fault::StackUnderflow)
            } else {
                p.lte_i8();
                Ok(StepEvent::Ran)
            }
        },
        Instr::lte_u16 => {
            if p.stack.len() < 4 {
                Err(Fault::StackUnderflow)
            } else {
                p.lte_u16();
                Ok(StepEvent::Ran)
            }
        },
        Instr::lte_i16 => {
            if p.stack.len() < 4 {
                Err(Fault::StackUnderflow)
            } else {
                p.lte_i16();
                Ok(StepEvent::Ran)
            }
        },
        Instr::lte_u32 => {
            if p.stack.len() < 8 {
                Err(Fault::StackUnderflow)
            } else {
                p.lte_u32();
                Ok(StepEvent::Ran)
            }
        },
        Instr::lte_i32 => {
            if p.stack.len() < 8 {
                Err(Fault::StackUnderflow)
            } else {
                p.lte_i32();
                Ok(StepEvent::Ran)
            }
        },
        Instr::lte_u64 => {
            if p.stack.len() < 16 {
                Err(Fault::StackUnderflow)
            } else {
                p.lte_u64();
                Ok(StepEvent::Ran)
            }
        },
        Instr::lte_i64 => {
            if p.stack.len() < 16 {
                Err(Fault::StackUnderflow)
            } else {
                p.lte_i64();
                Ok(StepEvent::Ran)
            }
        },
        _ => Err(Fault::InvalidOpcode),
    }
}

#[verifier::rlimit(100)]
#[verifier::spinoff_prover]
fn eval_cmp_gt(p: &mut Process, mem: &mut Vec<u8>, instr: Instr) -> (r: Result<StepEvent, Fault>)
    requires
        is_cmp_gt_op(instr),
    ensures
        evaluate_spec(old(p)@, old(mem)@, instr) matches Ok(o) ==> r == Ok::<StepEvent, Fault>(
            o.2,
        ) && final(p)@ == o.0 && final(mem)@ == o.1,
        evaluate_spec(old(p)@, old(mem)@, instr) matches Err(f) ==> r == Err::<StepEvent, Fault>(
            f,
        ) && final(mem)@ == old(mem)@ && final(p)@.state == old(p)@.state && final(p)@.regs == old(p)@.regs && final(p)@.function_stack == old(p)@.function_stack,
        final(p)@.program == old(p)@.program,
{
    match instr {
        Instr::gt_u8 => {
            if p.stack.len() < 2 {
                Err(Fault::StackUnderflow)
            } else {
                p.gt_u8();
                Ok(StepEvent::Ran)
            }
        },
        Instr::gt_i8 => {
            if p.stack.len() < 2 {
                Err(Fault::StackUnderflow)
            } else {
                p.gt_i8();
                Ok(StepEvent::Ran)
            }
        },
        Instr::gt_u16 => {
            if p.stack.len() < 4 {
                Err(Fault::StackUnderflow)
            } else {
                p.gt_u16();
                Ok(StepEvent::Ran)
            }
        },
        Instr::gt_i16 => {
            if p.stack.len() < 4 {
                Err(Fault::StackUnderflow)
            } else {
                p.gt_i16();
                Ok(StepEvent::Ran)
            }
        },
        Instr::gt_u32 => {
            if p.stack.len() < 8 {
                Err(Fault::StackUnderflow)
            } else {
                p.gt_u32();
                Ok(StepEvent::Ran)
            }
        },
        Instr::gt_i32 => {
            if p.stack.len() < 8 {
                Err(Fault::StackUnderflow)
            } else {
                p.gt_i32();
                Ok(StepEvent::Ran)
            }
        },
        Instr::gt_u64 => {
            if p.stack.len() < 16 {
                Err(Fault::StackUnderflow)
            } else {
                p.gt_u64();
                Ok(StepEvent::Ran)
            }
        },
        Instr::gt_i64 => {
            if p.stack.len() < 16 {
                Err(Fault::StackUnderflow)
            } else {
                p.gt_i64();
                Ok(StepEvent::Ran)
            }
        },
        Instr::gte_u8 => {
            if p.stack.len() < 2 {
                Err(Fault::StackUnderflow)
            } else {
                p.gte_u8();
                Ok(StepEvent::Ran)
            }
        },
        Instr::gte_i8 => {
            if p.stack.len() < 2 {
                Err(Fault::StackUnderflow)
            } else {
                p.gte_i8();
                Ok(StepEvent::Ran)
            }
        },
        Instr::gte_u16 => {
            if p.stack.len() < 4 {
                Err(Fault::StackUnderflow)
            } else {
                p.gte_u16();
                Ok(StepEvent::Ran)
            }
        },
        Instr::gte_i16 => {
            if p.stack.len() < 4 {
                Err(Fault::StackUnderflow)
            } else {
                p.gte_i16();
                Ok(StepEvent::Ran)
            }
        },
        Instr::gte_u32 => {
            if p.stack.len() < 8 {
                Err(Fault::StackUnderflow)
            } else {
                p.gte_u32();
                Ok(StepEvent::Ran)
            }
        },
        Instr::gte_i32 => {
            if p.stack.len() < 8 {
                Err(Fault::StackUnderflow)
            } else {
                p.gte_i32();
                Ok(StepEvent::Ran)
            }
        },
        Instr::gte_u64 => {
            if p.stack.len() < 16 {
                Err(Fault::StackUnderflow)
            } else {
                p.gte_u64();
                Ok(StepEvent::Ran)
            }
        },
        Instr::gte_i64 => {
            if p.stack.len() < 16 {
                Err(Fault::StackUnderflow)
            } else {
                p.gte_i64();
                Ok(StepEvent::Ran)
            }
        },
        _ => Err(Fault::InvalidOpcode),
    }
}

#[verifier::rlimit(100)]
#[verifier::spinoff_prover]
fn eval_cmp_eq(p: &mut Process, mem: &mut Vec<u8>, instr: Instr) -> (r: Result<StepEvent, Fault>)
    requires
        is_cmp_eq_op(instr),
    ensures
        evaluate_spec(old(p)@, old(mem)@, instr) matches Ok(o) ==> r == Ok::<StepEvent, Fault>(
            o.2,
        ) && final(p)@ == o.0 && final(mem)@ == o.1,
        evaluate_spec(old(p)@, old(mem)@, instr) matches Err(f) ==> r == Err::<StepEvent, Fault>(
            f,
        ) && final(mem)@ == old(mem)@ && final(p)@.state == old(p)@.state && final(p)@.regs == old(p)@.regs && final(p)@.function_stack == old(p)@.function_stack,
        final(p)@.program == old(p)@.program,
{
    match instr {
        Instr::eq_u8 => {
            if p.stack.len() < 2 {
                Err(Fault::StackUnderflow)
            } else {
                p.eq_u8();
                Ok(StepEvent::Ran)
            }
        },
        Instr::eq_i8 => {
            if p.stack.len() < 2 {
                Err(Fault::StackUnderflow)
            } else {
                p.eq_i8();
                Ok(StepEvent::Ran)
            }
        },
        Instr::eq_u16 => {
            if p.stack.len() < 4 {
                Err(Fault::StackUnderflow)
            } else {
                p.eq_u16();
                Ok(StepEvent::Ran)
            }
        },
        Instr::eq_i16 => {
            if p.stack.len() < 4 {
                Err(Fault::StackUnderflow)
            } else {
                p.eq_i16();
                Ok(StepEvent::Ran)
            }
        },
        Instr::eq_u32 => {
            if p.stack.len() < 8 {
                Err(Fault::StackUnderflow)
            } else {
                p.eq_u32();
                Ok(StepEvent::Ran)
            }
        },
        Instr::eq_i32 => {
            if p.stack.len() < 8 {
                Err(Fault::StackUnderflow)
            } else {
                p.eq_i32();
                Ok(StepEvent::Ran)
            }
        },
        Instr::eq_u64 => {
            if p.stack.len() < 16 {
                Err(Fault::StackUnderflow)
            } else {
                p.eq_u64();
                Ok(StepEvent::Ran)
            }
        },
        Instr::eq_i64 => {
            if p.stack.len() < 16 {
                Err(Fault::StackUnderflow)
            } else {
                p.eq_i64();
                Ok(StepEvent::Ran)
            }
        },
        Instr::neq_u8 => {
            if p.stack.len() < 2 {
                Err(Fault::StackUnderflow)
            } else {
                p.neq_u8();
                Ok(StepEvent::Ran)
            }
        },
        Instr::neq_i8 => {
            if p.stack.len() < 2 {
                Err(Fault::StackUnderflow)
            } else {
                p.neq_i8();
                Ok(StepEvent::Ran)
            }
        },
        Instr::neq_u16 => {
            if p.stack.len() < 4 {
                Err(Fault::StackUnderflow)
            } else {
                p.neq_u16();
                Ok(StepEvent::Ran)
            }
        },
        Instr::neq_i16 => {
            if p.stack.len() < 4 {
                Err(Fault::StackUnderflow)
            } else {
                p.neq_i16();
                Ok(StepEvent::Ran)
            }
        },
        Instr::neq_u32 => {
            if p.stack.len() < 8 {
                Err(Fault::StackUnderflow)
            } else {
                p.neq_u32();
                Ok(StepEvent::Ran)
            }
        },
        Instr::neq_i32 => {
            if p.stack.len() < 8 {
                Err(Fault::StackUnderflow)
            } else {
                p.neq_i32();
                Ok(StepEvent::Ran)
            }
        },
        Instr::neq_u64 => {
            if p.stack.len() < 16 {
                Err(Fault::StackUnderflow)
            } else {
                p.neq_u64();
                Ok(StepEvent::Ran)
            }
        },
        Instr::neq_i64 => {
            if p.stack.len() < 16 {
                Err(Fault::StackUnderflow)
            } else {
                p.neq_i64();
                Ok(StepEvent::Ran)
            }
        },
        _ => Err(Fault::InvalidOpcode),
    }
}

/// Decode-free dispatch: apply one already-decoded instruction to a
/// process and the arena, per [`evaluate_spec`].
pub fn evaluate_instr(p: &mut Process, mem: &mut Vec<u8>, instr: Instr) -> (r: Result<
    StepEvent,
    Fault,
>)
    ensures
        evaluate_spec(old(p)@, old(mem)@, instr) matches Ok(o) ==> r == Ok::<StepEvent, Fault>(
            o.2,
        ) && final(p)@ == o.0 && final(mem)@ == o.1,
        evaluate_spec(old(p)@, old(mem)@, instr) matches Err(f) ==> r == Err::<StepEvent, Fault>(
            f,
        ) && final(mem)@ == old(mem)@ && final(p)@.state == old(p)@.state && final(p)@.regs == old(p)@.regs && final(p)@.function_stack == old(p)@.function_stack,
        final(p)@.program == old(p)@.program,
{
    match instr {
        Instr::nop
        | Instr::halt
        | Instr::wait
        | Instr::spawn
        | Instr::if_jmp
        | Instr::jmp
        | Instr::call
        | Instr::ret => eval_control(p, mem, instr),
        Instr::push_u8 | Instr::push_i8 => eval_push_8(p, mem, instr),
        Instr::push_u16 | Instr::push_i16 => eval_push_16(p, mem, instr),
        Instr::push_u32
        | Instr::push_i32
        | Instr::push_f32
        | Instr::push_u64
        | Instr::push_i64
        | Instr::push_f64 => eval_push_wide(p, mem, instr),
        Instr::pop_u8
        | Instr::pop_i8
        | Instr::pop_u16
        | Instr::pop_i16
        | Instr::pop_u32
        | Instr::pop_i32
        | Instr::pop_f32
        | Instr::pop_u64
        | Instr::pop_i64
        | Instr::pop_f64 => eval_pop(p, mem, instr),
        Instr::copy_u8 | Instr::copy_i8 | Instr::copy_u16 | Instr::copy_i16 => eval_copy_narrow(
            p,
            mem,
            instr,
        ),
        Instr::copy_u32
        | Instr::copy_i32
        | Instr::copy_f32
        | Instr::copy_u64
        | Instr::copy_i64
        | Instr::copy_f64 => eval_copy_wide(p, mem, instr),
        Instr::load_u8
        | Instr::load_i8
        | Instr::load_u16
        | Instr::load_i16
        | Instr::load_u32
        | Instr::load_i32
        | Instr::load_f32
        | Instr::load_u64
        | Instr::load_i64
        | Instr::load_f64
        | Instr::save_u8
        | Instr::save_i8
        | Instr::save_u16
        | Instr::save_i16
        | Instr::save_u32
        | Instr::save_i32
        | Instr::save_f32
        | Instr::save_u64
        | Instr::save_i64
        | Instr::save_f64 => eval_memory(p, mem, instr),
        Instr::add_u8
        | Instr::add_i8
        | Instr::add_u16
        | Instr::add_i16
        | Instr::add_u32
        | Instr::add_i32
        | Instr::add_u64
        | Instr::add_i64
        | Instr::sub_u8
        | Instr::sub_i8
        | Instr::sub_u16
        | Instr::sub_i16
        | Instr::sub_u32
        | Instr::sub_i32
        | Instr::sub_u64
        | Instr::sub_i64
        | Instr::mul_u8
        | Instr::mul_i8
        | Instr::mul_u16
        | Instr::mul_i16
        | Instr::mul_u32
        | Instr::mul_i32
        | Instr::mul_u64
        | Instr::mul_i64 => eval_wrap(p, mem, instr),
        Instr::div_u8
        | Instr::div_i8
        | Instr::div_u16
        | Instr::div_i16
        | Instr::div_u32
        | Instr::div_i32
        | Instr::div_u64
        | Instr::div_i64
        | Instr::rem_u8
        | Instr::rem_i8
        | Instr::rem_u16
        | Instr::rem_i16
        | Instr::rem_u32
        | Instr::rem_i32
        | Instr::rem_u64
        | Instr::rem_i64 => eval_divrem(p, mem, instr),
        Instr::and_u8
        | Instr::and_i8
        | Instr::and_u16
        | Instr::and_i16
        | Instr::and_u32
        | Instr::and_i32
        | Instr::and_u64
        | Instr::and_i64
        | Instr::or_u8
        | Instr::or_i8
        | Instr::or_u16
        | Instr::or_i16
        | Instr::or_u32
        | Instr::or_i32
        | Instr::or_u64
        | Instr::or_i64
        | Instr::xor_u8
        | Instr::xor_i8
        | Instr::xor_u16
        | Instr::xor_i16
        | Instr::xor_u32
        | Instr::xor_i32
        | Instr::xor_u64
        | Instr::xor_i64 => eval_logic(p, mem, instr),
        Instr::shl_u8
        | Instr::shl_i8
        | Instr::shl_u16
        | Instr::shl_i16
        | Instr::shl_u32
        | Instr::shl_i32
        | Instr::shl_u64
        | Instr::shl_i64
        | Instr::shr_u8
        | Instr::shr_i8
        | Instr::shr_u16
        | Instr::shr_i16
        | Instr::shr_u32
        | Instr::shr_i32
        | Instr::shr_u64
        | Instr::shr_i64 => eval_shift(p, mem, instr),
        Instr::not_u8
        | Instr::not_i8
        | Instr::not_u16
        | Instr::not_i16
        | Instr::not_u32
        | Instr::not_i32
        | Instr::not_u64
        | Instr::not_i64
        | Instr::neg_u8
        | Instr::neg_i8
        | Instr::neg_u16
        | Instr::neg_i16
        | Instr::neg_u32
        | Instr::neg_i32
        | Instr::neg_u64
        | Instr::neg_i64 => eval_unary(p, mem, instr),
        Instr::lt_u8
        | Instr::lt_i8
        | Instr::lt_u16
        | Instr::lt_i16
        | Instr::lt_u32
        | Instr::lt_i32
        | Instr::lt_u64
        | Instr::lt_i64
        | Instr::lte_u8
        | Instr::lte_i8
        | Instr::lte_u16
        | Instr::lte_i16
        | Instr::lte_u32
        | Instr::lte_i32
        | Instr::lte_u64
        | Instr::lte_i64 => eval_cmp_lt(p, mem, instr),
        Instr::gt_u8
        | Instr::gt_i8
        | Instr::gt_u16
        | Instr::gt_i16
        | Instr::gt_u32
        | Instr::gt_i32
        | Instr::gt_u64
        | Instr::gt_i64
        | Instr::gte_u8
        | Instr::gte_i8
        | Instr::gte_u16
        | Instr::gte_i16
        | Instr::gte_u32
        | Instr::gte_i32
        | Instr::gte_u64
        | Instr::gte_i64 => eval_cmp_gt(p, mem, instr),
        Instr::eq_u8
        | Instr::eq_i8
        | Instr::eq_u16
        | Instr::eq_i16
        | Instr::eq_u32
        | Instr::eq_i32
        | Instr::eq_u64
        | Instr::eq_i64
        | Instr::neq_u8
        | Instr::neq_i8
        | Instr::neq_u16
        | Instr::neq_i16
        | Instr::neq_u32
        | Instr::neq_i32
        | Instr::neq_u64
        | Instr::neq_i64 => eval_cmp_eq(p, mem, instr),
        Instr::type_ptr
        | Instr::type_int
        | Instr::type_ptr_off
        | Instr::type_idr_ptr
        | Instr::type_idr_ptr_off
        | Instr::type_reg
        | Instr::size_8
        | Instr::size_16
        | Instr::size_32
        | Instr::size_64 => Err(Fault::InvalidOpcode),
        Instr::add_f32
        | Instr::add_f64
        | Instr::sub_f32
        | Instr::sub_f64
        | Instr::mul_f32
        | Instr::mul_f64
        | Instr::div_f32
        | Instr::div_f64
        | Instr::rem_f32
        | Instr::rem_f64
        | Instr::neg_f32
        | Instr::neg_f64
        | Instr::lt_f32
        | Instr::lt_f64
        | Instr::lte_f32
        | Instr::lte_f64
        | Instr::gt_f32
        | Instr::gt_f64
        | Instr::gte_f32
        | Instr::gte_f64
        | Instr::eq_f32
        | Instr::eq_f64
        | Instr::neq_f32
        | Instr::neq_f64 => Ok(StepEvent::Float(instr)),
    }
}

/// One full fetch-decode-execute step on a process, against the arena:
/// the single-step primitive of the machine, specified by [`step_spec`].
pub fn execute_one(process: &mut Process, mem: &mut Vec<u8>) -> (r: Result<StepEvent, Fault>)
    ensures
        step_spec(old(process)@, old(mem)@) matches Ok(o) ==> r == Ok::<StepEvent, Fault>(o.2)
            && final(process)@ == o.0 && final(mem)@ == o.1,
        step_spec(old(process)@, old(mem)@) matches Err(f) ==> r == Err::<StepEvent, Fault>(f)
            && final(mem)@ == old(mem)@ && final(process)@.state == old(process)@.state && final(process)@.regs == old(process)@.regs && final(process)@.function_stack == old(process)@.function_stack,
        final(process)@.program == old(process)@.program,
{
    proof {
        reveal(step_spec);
    }
    match process.next() {
        Some(b) => match Instr::from_byte(b) {
            Some(i) => evaluate_instr(process, mem, i),
            None => Err(Fault::InvalidOpcode),
        },
        None => {
            process.set_state(State::Terminated);
            Ok(StepEvent::Ran)
        },
    }
}

/// The state of one process after up to `fuel` dispatch steps against an
/// arena: the final process, the final arena, and whether it reached
/// `Terminated`; or the first fault along the way.  This trace has no
/// scheduler and no floating-point unit, so a `spawn` or a deferred
/// floating-point instruction is its `InvalidOpcode` fault, like an
/// unrecognised opcode byte.
#[verifier::opaque]
pub open spec fn run_trace(p: ProcView, mem: Seq<u8>, fuel: nat) -> Result<
    (ProcView, Seq<u8>, bool),
    Fault,
>
    decreases fuel,
{
    if p.state == State::Terminated {
        Ok((p, mem, true))
    } else if fuel == 0 {
        Ok((p, mem, false))
    } else {
        match step_spec(p, mem) {
            Ok(o) => match o.2 {
                StepEvent::Ran => run_trace(o.0, o.1, (fuel - 1) as nat),
                _ => Err(Fault::InvalidOpcode),
            },
            Err(f) => Err(f),
        }
    }
}

/// Drive one process up to `max_steps` fetch-decode-execute steps: set it
/// `Running`, then step until its state is `Terminated` (a `halt`, or the
/// program exhausted), the budget runs out, or a fault aborts the run.
///
/// The contract is exact: the result and the final process are those of
/// [`run_trace`] from the `Running` entry state over an empty arena —
/// `Ok(true)` with the trace's end state when it terminates within the
/// budget, `Ok(false)` with the state after exactly `max_steps` steps when
/// it does not, and the first fault of the trace otherwise.  A program
/// that never halts can thus be probed with a bounded step count.
///
/// Every verified function of this crate terminates, so the runner takes
/// an explicit budget; a blocking loop without one is a one-line wrapper
/// around [`execute_one`] in the embedder.
///
/// This runner has no scheduler and no floating-point unit: a `spawn` or a
/// floating-point opcode is reported as an `InvalidOpcode` fault, like an
/// unrecognised opcode byte.  A scheduler-driven run lives on
/// [`crate::virtual_machine::VirtualMachine`]; an embedder that wants the
/// floating-point opcodes drives [`execute_one`] itself.  The arena of this
/// runner is empty, so every arena dereference is an `InvalidOperand`
/// fault.
#[verifier::rlimit(100)]
#[verifier::spinoff_prover]
pub fn run(process: &mut Process, max_steps: u64) -> (r: Result<bool, Fault>)
    ensures
        run_trace(
            (ProcView { state: State::Running, ..old(process)@ }),
            Seq::<u8>::empty(),
            max_steps as nat,
        ) matches Ok(o) ==> r == Ok::<bool, Fault>(o.2) && final(process)@ == o.0,
        run_trace(
            (ProcView { state: State::Running, ..old(process)@ }),
            Seq::<u8>::empty(),
            max_steps as nat,
        ) matches Err(f) ==> r == Err::<bool, Fault>(f),
        r == Ok::<bool, Fault>(true) ==> final(process)@.state == State::Terminated,
        r == Ok::<bool, Fault>(false) ==> final(process)@.state != State::Terminated,
        final(process)@.program == old(process)@.program,
{
    process.set_state(State::Running);
    let mut mem: Vec<u8> = Vec::new();
    let ghost entry = process@;
    proof {
        assert(mem@ =~= Seq::<u8>::empty());
    }
    let mut steps: u64 = 0;
    while process.get_state() != State::Terminated && steps < max_steps
        invariant
            steps <= max_steps,
            entry == (ProcView { state: State::Running, ..old(process)@ }),
            process@.program == old(process)@.program,
            run_trace(entry, Seq::<u8>::empty(), max_steps as nat) == run_trace(
                process@,
                mem@,
                (max_steps - steps) as nat,
            ),
        decreases max_steps - steps,
    {
        let ghost p0 = process@;
        let ghost m0 = mem@;
        let ghost fuel = (max_steps - steps) as nat;
        match execute_one(process, &mut mem) {
            Ok(StepEvent::Ran) => {
                proof {
                    reveal_with_fuel(run_trace, 1);
                    assert(run_trace(p0, m0, fuel) == run_trace(
                        process@,
                        mem@,
                        (fuel - 1) as nat,
                    ));
                }
            },
            Ok(_) => {
                proof {
                    reveal_with_fuel(run_trace, 1);
                }
                return Err(Fault::InvalidOpcode);
            },
            Err(f) => {
                proof {
                    reveal_with_fuel(run_trace, 1);
                }
                return Err(f);
            },
        }
        steps = steps + 1;
    }
    proof {
        reveal_with_fuel(run_trace, 1);
    }
    Ok(process.get_state() == State::Terminated)
}

} // verus!
