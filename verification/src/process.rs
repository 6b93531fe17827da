//! One cooperative execution context.
//!
//! A process owns a program counter, an immutable program, a LIFO execution
//! stack of raw bytes, a LIFO call stack of saved return addresses, a
//! register file, and a lifecycle state.  The methods here are the opcode
//! primitives the dispatch loop is built from: raw program-byte readers
//! (`next_*`), big-endian stack push/pop/peek/copy for every width, the
//! wrapping arithmetic, bitwise, shift and comparison operations, and the
//! state transitions.
//!
//! Multi-byte values live on the stack most-significant-byte-first, so the
//! byte pushed last is the least significant.  All fixed-width arithmetic
//! wraps silently on overflow; division truncates toward zero and wraps on
//! the single overflowing case.  The primitives whose misuse the dispatch
//! loop reports as a fault (popping an empty stack, dividing by zero) state
//! those conditions as preconditions; the dispatch loop tests them before
//! calling and classifies the failures.

use vstd::prelude::*;

use crate::bytes::be_bytes_u16;
use crate::bytes::be_bytes_u32;
use crate::bytes::be_bytes_u64;
use crate::bytes::u16_of_be;
use crate::bytes::u32_of_be;
use crate::bytes::u64_of_be;
use crate::regs::Regs;
use crate::state::State;
use vstd::slice::slice_to_vec;

verus! {

/// One cooperative execution context.
#[derive(Debug)]
pub struct Process {
    /// Lifecycle state.
    pub state: State,
    /// Byte offset of the next fetch into `program`.
    pub program_counter: u64,
    /// The immutable instruction stream.
    pub program: Vec<u8>,
    /// The LIFO execution stack, a byte buffer.
    pub stack: Vec<u8>,
    /// The LIFO call stack of saved return addresses.
    pub function_stack: Vec<u64>,
    /// The register file.
    pub regs: Regs,
}

/// The mathematical abstraction of a process: the same six components, with
/// the containers abstracted to sequences.
pub ghost struct ProcView {
    pub state: State,
    pub program_counter: u64,
    pub program: Seq<u8>,
    pub stack: Seq<u8>,
    pub function_stack: Seq<u64>,
    pub regs: Seq<u64>,
}

impl View for Process {
    type V = ProcView;

    open spec fn view(&self) -> ProcView {
        ProcView {
            state: self.state,
            program_counter: self.program_counter,
            program: self.program@,
            stack: self.stack@,
            function_stack: self.function_stack@,
            regs: self.regs@,
        }
    }
}

/// The topmost 8-bit value of an execution stack.
pub open spec fn top_u8(s: Seq<u8>) -> u8
    recommends
        s.len() >= 1,
{
    s[s.len() - 1]
}

/// The 8-bit value under the topmost one.
pub open spec fn second_u8(s: Seq<u8>) -> u8
    recommends
        s.len() >= 2,
{
    s[s.len() - 2]
}

/// The topmost 16-bit value of an execution stack.
pub open spec fn top_u16(s: Seq<u8>) -> u16
    recommends
        s.len() >= 2,
{
    u16_of_be(s[s.len() - 2], s[s.len() - 1])
}

/// The 16-bit value under the topmost one.
pub open spec fn second_u16(s: Seq<u8>) -> u16
    recommends
        s.len() >= 4,
{
    u16_of_be(s[s.len() - 4], s[s.len() - 3])
}

/// The topmost 32-bit value of an execution stack.
pub open spec fn top_u32(s: Seq<u8>) -> u32
    recommends
        s.len() >= 4,
{
    u32_of_be(s[s.len() - 4], s[s.len() - 3], s[s.len() - 2], s[s.len() - 1])
}

/// The 32-bit value under the topmost one.
pub open spec fn second_u32(s: Seq<u8>) -> u32
    recommends
        s.len() >= 8,
{
    u32_of_be(s[s.len() - 8], s[s.len() - 7], s[s.len() - 6], s[s.len() - 5])
}

/// The topmost 64-bit value of an execution stack.
pub open spec fn top_u64(s: Seq<u8>) -> u64
    recommends
        s.len() >= 8,
{
    u64_of_be(
        s[s.len() - 8],
        s[s.len() - 7],
        s[s.len() - 6],
        s[s.len() - 5],
        s[s.len() - 4],
        s[s.len() - 3],
        s[s.len() - 2],
        s[s.len() - 1],
    )
}

/// The 64-bit value under the topmost one.
pub open spec fn second_u64(s: Seq<u8>) -> u64
    recommends
        s.len() >= 16,
{
    u64_of_be(
        s[s.len() - 16],
        s[s.len() - 15],
        s[s.len() - 14],
        s[s.len() - 13],
        s[s.len() - 12],
        s[s.len() - 11],
        s[s.len() - 10],
        s[s.len() - 9],
    )
}


/// The 16-bit big-endian value at offset `pc` of a program.
pub open spec fn prog_u16_at(s: Seq<u8>, pc: int) -> u16
    recommends
        0 <= pc && pc + 2 <= s.len(),
{
    u16_of_be(s[pc], s[pc + 1])
}

/// The 32-bit big-endian value at offset `pc` of a program.
pub open spec fn prog_u32_at(s: Seq<u8>, pc: int) -> u32
    recommends
        0 <= pc && pc + 4 <= s.len(),
{
    u32_of_be(s[pc], s[pc + 1], s[pc + 2], s[pc + 3])
}

/// The 64-bit big-endian value at offset `pc` of a program.
pub open spec fn prog_u64_at(s: Seq<u8>, pc: int) -> u64
    recommends
        0 <= pc && pc + 8 <= s.len(),
{
    u64_of_be(s[pc], s[pc + 1], s[pc + 2], s[pc + 3], s[pc + 4], s[pc + 5], s[pc + 6], s[pc + 7])
}



/// Everything of a process except the program counter is unchanged.  This is
/// all a contract can say about the state an operand decode leaves behind
/// when it reports a fault; a faulted machine is discarded.
pub open spec fn same_but_pc(pre: ProcView, post: ProcView) -> bool {
    post == (ProcView { program_counter: post.program_counter, ..pre })
}

/// Everything of a process except the program counter and the execution
/// stack is unchanged.
pub open spec fn same_but_pc_stack(pre: ProcView, post: ProcView) -> bool {
    post == (ProcView { program_counter: post.program_counter, stack: post.stack, ..pre })
}

impl Process {
    /// A fresh process over `program`: state `New`, program counter zero,
    /// empty stacks, all registers zero.
    pub fn new(program: &[u8]) -> (r: Process)
        ensures
            r.state == State::New,
            r.program_counter == 0,
            r.program@ == program@,
            r.stack@ == Seq::<u8>::empty(),
            r.function_stack@ == Seq::<u64>::empty(),
            r.regs@ == Seq::new(32, |i: int| 0u64),
    {
        Process {
            state: State::New,
            program_counter: 0,
            program: slice_to_vec(program),
            stack: Vec::new(),
            function_stack: Vec::new(),
            regs: Regs::new(),
        }
    }


    /// A child of this process: same program, program counter at `target`,
    /// state `Waiting`, empty stacks, zeroed registers.
    pub fn spawn(&self, target: u64) -> (r: Process)
        ensures
            r@ == (ProcView {
                state: State::Waiting,
                program_counter: target,
                program: self@.program,
                stack: Seq::<u8>::empty(),
                function_stack: Seq::<u64>::empty(),
                regs: Seq::new(32, |i: int| 0u64),
            }),
    {
        let program = self.program.clone();
        proof {
            assert(program@ =~= self.program@);
        }
        Process {
            state: State::Waiting,
            program_counter: target,
            program,
            stack: Vec::new(),
            function_stack: Vec::new(),
            regs: Regs::new(),
        }
    }

    /// The current lifecycle state.
    pub fn get_state(&self) -> (r: State)
        ensures
            r == self.state,
    {
        self.state
    }

    /// Replace the lifecycle state.
    pub fn set_state(&mut self, state: State)
        ensures
            final(self)@ == (ProcView { state, ..old(self)@ }),
    {
        self.state = state;
    }

    /// Whether the process is currently `Running`.
    pub fn is_running(&self) -> (r: bool)
        ensures
            r == (self.state == State::Running),
    {
        self.state == State::Running
    }

    /// Assemble a 16-bit value from two big-endian bytes.
    pub fn to_u16(b0: u8, b1: u8) -> (r: u16)
        ensures
            r == u16_of_be(b0, b1),
    {
        b0 as u16 * 0x100 + b1 as u16
    }

    /// Assemble a 32-bit value from four big-endian bytes.
    pub fn to_u32(b0: u8, b1: u8, b2: u8, b3: u8) -> (r: u32)
        ensures
            r == u32_of_be(b0, b1, b2, b3),
    {
        Self::to_u16(b0, b1) as u32 * 0x1_0000 + Self::to_u16(b2, b3) as u32
    }

    /// Assemble a 64-bit value from eight big-endian bytes.
    pub fn to_u64(b0: u8, b1: u8, b2: u8, b3: u8, b4: u8, b5: u8, b6: u8, b7: u8) -> (r: u64)
        ensures
            r == u64_of_be(b0, b1, b2, b3, b4, b5, b6, b7),
    {
        Self::to_u32(b0, b1, b2, b3) as u64 * 0x1_0000_0000 + Self::to_u32(b4, b5, b6, b7) as u64
    }

    /// Fetch the next program byte and advance, or report exhaustion.
    pub fn next(&mut self) -> (r: Option<u8>)
        ensures
            old(self).program_counter < old(self).program@.len() ==> r == Some(
                old(self).program@[old(self).program_counter as int],
            ) && final(self)@ == (ProcView {
                program_counter: (old(self).program_counter + 1) as u64,
                ..old(self)@
            }),
            old(self).program_counter >= old(self).program@.len() ==> r == None::<u8>
                && final(self)@ == old(self)@,
    {
        let n = self.program.len();
        if self.program_counter < n as u64 {
            let data = self.program[self.program_counter as usize];
            self.program_counter = self.program_counter + 1;
            Some(data)
        } else {
            None
        }
    }

    /// Read the next byte of the program and advance.
    pub fn next_u8(&mut self) -> (r: u8)
        requires
            old(self).program_counter + 1 <= old(self).program@.len(),
        ensures
            r == old(self).program@[old(self).program_counter as int],
            final(self)@ == (ProcView {
                program_counter: (old(self).program_counter + 1) as u64,
                ..old(self)@
            }),
    {
        let n = self.program.len();
        let b = self.program[self.program_counter as usize];
        self.program_counter = self.program_counter + 1;
        b
    }

    /// Read the next 2 bytes as one big-endian 16-bit value of the program and advance.
    pub fn next_u16(&mut self) -> (r: u16)
        requires
            old(self).program_counter + 2 <= old(self).program@.len(),
        ensures
            r == prog_u16_at(old(self).program@, old(self).program_counter as int),
            final(self)@ == (ProcView {
                program_counter: (old(self).program_counter + 2) as u64,
                ..old(self)@
            }),
    {
        proof {
            assert(self.program.len() == self.program@.len());
        }
        let b0 = self.next_u8();
        let b1 = self.next_u8();
        Self::to_u16(b0, b1)
    }

    /// Read the next 4 bytes as one big-endian 32-bit value of the program and advance.
    pub fn next_u32(&mut self) -> (r: u32)
        requires
            old(self).program_counter + 4 <= old(self).program@.len(),
        ensures
            r == prog_u32_at(old(self).program@, old(self).program_counter as int),
            final(self)@ == (ProcView {
                program_counter: (old(self).program_counter + 4) as u64,
                ..old(self)@
            }),
    {
        proof {
            assert(self.program.len() == self.program@.len());
        }
        let b0 = self.next_u8();
        let b1 = self.next_u8();
        let b2 = self.next_u8();
        let b3 = self.next_u8();
        Self::to_u32(b0, b1, b2, b3)
    }

    /// Read the next 8 bytes as one big-endian 64-bit value of the program and advance.
    pub fn next_u64(&mut self) -> (r: u64)
        requires
            old(self).program_counter + 8 <= old(self).program@.len(),
        ensures
            r == prog_u64_at(old(self).program@, old(self).program_counter as int),
            final(self)@ == (ProcView {
                program_counter: (old(self).program_counter + 8) as u64,
                ..old(self)@
            }),
    {
        proof {
            assert(self.program.len() == self.program@.len());
        }
        let b0 = self.next_u8();
        let b1 = self.next_u8();
        let b2 = self.next_u8();
        let b3 = self.next_u8();
        let b4 = self.next_u8();
        let b5 = self.next_u8();
        let b6 = self.next_u8();
        let b7 = self.next_u8();
        Self::to_u64(b0, b1, b2, b3, b4, b5, b6, b7)
    }

    /// Read the next 8 bytes as one big-endian value, cast to `usize`.
    pub fn next_usize(&mut self) -> (r: usize)
        requires
            old(self).program_counter + 8 <= old(self).program@.len(),
        ensures
            r == prog_u64_at(old(self).program@, old(self).program_counter as int) as usize,
            final(self)@ == (ProcView {
                program_counter: (old(self).program_counter + 8) as u64,
                ..old(self)@
            }),
    {
        self.next_u64() as usize
    }

    /// Read the next 1 byte as one big-endian value, reinterpreted as signed.
    pub fn next_i8(&mut self) -> (r: i8)
        requires
            old(self).program_counter + 1 <= old(self).program@.len(),
        ensures
            r == old(self).program@[old(self).program_counter as int] as i8,
            final(self)@ == (ProcView {
                program_counter: (old(self).program_counter + 1) as u64,
                ..old(self)@
            }),
    {
        self.next_u8() as i8
    }

    /// Read the next 2 bytes as one big-endian value, reinterpreted as signed.
    pub fn next_i16(&mut self) -> (r: i16)
        requires
            old(self).program_counter + 2 <= old(self).program@.len(),
        ensures
            r == prog_u16_at(old(self).program@, old(self).program_counter as int) as i16,
            final(self)@ == (ProcView {
                program_counter: (old(self).program_counter + 2) as u64,
                ..old(self)@
            }),
    {
        self.next_u16() as i16
    }

    /// Read the next 4 bytes as one big-endian value, reinterpreted as signed.
    pub fn next_i32(&mut self) -> (r: i32)
        requires
            old(self).program_counter + 4 <= old(self).program@.len(),
        ensures
            r == prog_u32_at(old(self).program@, old(self).program_counter as int) as i32,
            final(self)@ == (ProcView {
                program_counter: (old(self).program_counter + 4) as u64,
                ..old(self)@
            }),
    {
        self.next_u32() as i32
    }

    /// Read the next 8 bytes as one big-endian value, reinterpreted as signed.
    pub fn next_i64(&mut self) -> (r: i64)
        requires
            old(self).program_counter + 8 <= old(self).program@.len(),
        ensures
            r == prog_u64_at(old(self).program@, old(self).program_counter as int) as i64,
            final(self)@ == (ProcView {
                program_counter: (old(self).program_counter + 8) as u64,
                ..old(self)@
            }),
    {
        self.next_u64() as i64
    }

    /// Read the next 8 bytes as one big-endian value, reinterpreted as
    /// signed and then cast to `usize`.
    pub fn next_isize(&mut self) -> (r: usize)
        requires
            old(self).program_counter + 8 <= old(self).program@.len(),
        ensures
            r == (prog_u64_at(old(self).program@, old(self).program_counter as int) as i64) as usize,
            final(self)@ == (ProcView {
                program_counter: (old(self).program_counter + 8) as u64,
                ..old(self)@
            }),
    {
        self.next_i64() as usize
    }

    /// Push one byte.
    pub fn push_u8(&mut self, value: u8)
        ensures
            final(self)@ == (ProcView { stack: old(self).stack@.push(value), ..old(self)@ }),
    {
        self.stack.push(value);
    }

    /// Push a 16-bit value as 2 bytes, most significant first.
    pub fn push_u16(&mut self, value: u16)
        ensures
            final(self)@ == (ProcView {
                stack: old(self).stack@ + be_bytes_u16(value),
                ..old(self)@
            }),
    {
        self.stack.push(((value / 0x100) % 0x100) as u8);
        self.stack.push((value % 0x100) as u8);
        proof {
            assert(self.stack@ =~= old(self).stack@ + be_bytes_u16(value));
        }
    }

    /// Push a 32-bit value as 4 bytes, most significant first.
    pub fn push_u32(&mut self, value: u32)
        ensures
            final(self)@ == (ProcView {
                stack: old(self).stack@ + be_bytes_u32(value),
                ..old(self)@
            }),
    {
        self.stack.push(((value / 0x1000000) % 0x100) as u8);
        self.stack.push(((value / 0x10000) % 0x100) as u8);
        self.stack.push(((value / 0x100) % 0x100) as u8);
        self.stack.push((value % 0x100) as u8);
        proof {
            assert(self.stack@ =~= old(self).stack@ + be_bytes_u32(value));
        }
    }

    /// Push a 64-bit value as 8 bytes, most significant first.
    #[verifier::rlimit(30)]
    pub fn push_u64(&mut self, value: u64)
        ensures
            final(self)@ == (ProcView {
                stack: old(self).stack@ + be_bytes_u64(value),
                ..old(self)@
            }),
    {
        self.stack.push(((value / 0x100000000000000) % 0x100) as u8);
        self.stack.push(((value / 0x1000000000000) % 0x100) as u8);
        self.stack.push(((value / 0x10000000000) % 0x100) as u8);
        self.stack.push(((value / 0x100000000) % 0x100) as u8);
        self.stack.push(((value / 0x1000000) % 0x100) as u8);
        self.stack.push(((value / 0x10000) % 0x100) as u8);
        self.stack.push(((value / 0x100) % 0x100) as u8);
        self.stack.push((value % 0x100) as u8);
        proof {
            assert(self.stack@ =~= old(self).stack@ + be_bytes_u64(value));
        }
    }

    /// Push a machine-width value as 8 bytes, most significant first.
    pub fn push_usize(&mut self, value: usize)
        ensures
            final(self)@ == (ProcView {
                stack: old(self).stack@ + be_bytes_u64(value as u64),
                ..old(self)@
            }),
    {
        self.push_u64(value as u64);
    }

    /// Pop the topmost byte.
    pub fn pop_u8(&mut self) -> (r: u8)
        requires
            old(self).stack@.len() >= 1,
        ensures
            r == top_u8(old(self).stack@),
            final(self)@ == (ProcView {
                stack: old(self).stack@.subrange(0, old(self).stack@.len() - 1),
                ..old(self)@
            }),
    {
        self.stack.pop().unwrap()
    }

    /// Pop the topmost 16-bit value, reassembling its 2 bytes.
    pub fn pop_u16(&mut self) -> (r: u16)
        requires
            old(self).stack@.len() >= 2,
        ensures
            r == top_u16(old(self).stack@),
            final(self)@ == (ProcView {
                stack: old(self).stack@.subrange(0, old(self).stack@.len() - 2),
                ..old(self)@
            }),
    {
        let b0 = self.pop_u8();
        let b1 = self.pop_u8();
        proof {
            assert(self.stack@ =~= old(self).stack@.subrange(0, old(self).stack@.len() - 2));
        }
        Self::to_u16(b1, b0)
    }

    /// Pop the topmost 32-bit value, reassembling its 4 bytes.
    pub fn pop_u32(&mut self) -> (r: u32)
        requires
            old(self).stack@.len() >= 4,
        ensures
            r == top_u32(old(self).stack@),
            final(self)@ == (ProcView {
                stack: old(self).stack@.subrange(0, old(self).stack@.len() - 4),
                ..old(self)@
            }),
    {
        let b0 = self.pop_u8();
        let b1 = self.pop_u8();
        let b2 = self.pop_u8();
        let b3 = self.pop_u8();
        proof {
            assert(self.stack@ =~= old(self).stack@.subrange(0, old(self).stack@.len() - 4));
        }
        Self::to_u32(b3, b2, b1, b0)
    }

    /// Pop the topmost 64-bit value, reassembling its 8 bytes.
    #[verifier::rlimit(30)]
    pub fn pop_u64(&mut self) -> (r: u64)
        requires
            old(self).stack@.len() >= 8,
        ensures
            r == top_u64(old(self).stack@),
            final(self)@ == (ProcView {
                stack: old(self).stack@.subrange(0, old(self).stack@.len() - 8),
                ..old(self)@
            }),
    {
        let b0 = self.pop_u8();
        let b1 = self.pop_u8();
        let b2 = self.pop_u8();
        let b3 = self.pop_u8();
        let b4 = self.pop_u8();
        let b5 = self.pop_u8();
        let b6 = self.pop_u8();
        let b7 = self.pop_u8();
        proof {
            assert(self.stack@ =~= old(self).stack@.subrange(0, old(self).stack@.len() - 8));
        }
        Self::to_u64(b7, b6, b5, b4, b3, b2, b1, b0)
    }

    /// Pop the topmost 64-bit value, cast to `usize`.
    pub fn pop_usize(&mut self) -> (r: usize)
        requires
            old(self).stack@.len() >= 8,
        ensures
            r == top_u64(old(self).stack@) as usize,
            final(self)@ == (ProcView {
                stack: old(self).stack@.subrange(0, old(self).stack@.len() - 8),
                ..old(self)@
            }),
    {
        self.pop_u64() as usize
    }

    /// The byte `offset` positions below the top of the stack.
    pub fn peek_stack(&self, offset: usize) -> (r: u8)
        requires
            offset < self.stack@.len(),
        ensures
            r == self.stack@[self.stack@.len() - offset - 1],
    {
        let len = self.stack.len();
        self.stack[len - offset - 1]
    }

    /// The byte `offset` positions below the top of the stack.
    pub fn peek_u8(&self, offset: usize) -> (r: u8)
        requires
            offset < self.stack@.len(),
        ensures
            r == self.stack@[self.stack@.len() - offset - 1],
    {
        self.peek_stack(offset)
    }

    /// The 16-bit value whose least significant byte lies `offset`
    /// positions below the top of the stack.
    pub fn peek_u16(&self, offset: usize) -> (r: u16)
        requires
            offset + 2 <= self.stack@.len(),
        ensures
            r == u16_of_be(self.stack@[self.stack@.len() - offset - 2], self.stack@[self.stack@.len() - offset - 1]),
    {
        proof {
            assert(self.stack.len() == self.stack@.len());
        }
        let b0 = self.peek_stack(offset + 0);
        let b1 = self.peek_stack(offset + 1);
        Self::to_u16(b1, b0)
    }

    /// The 32-bit value whose least significant byte lies `offset`
    /// positions below the top of the stack.
    pub fn peek_u32(&self, offset: usize) -> (r: u32)
        requires
            offset + 4 <= self.stack@.len(),
        ensures
            r == u32_of_be(self.stack@[self.stack@.len() - offset - 4], self.stack@[self.stack@.len() - offset - 3], self.stack@[self.stack@.len() - offset - 2], self.stack@[self.stack@.len() - offset - 1]),
    {
        proof {
            assert(self.stack.len() == self.stack@.len());
        }
        let b0 = self.peek_stack(offset + 0);
        let b1 = self.peek_stack(offset + 1);
        let b2 = self.peek_stack(offset + 2);
        let b3 = self.peek_stack(offset + 3);
        Self::to_u32(b3, b2, b1, b0)
    }

    /// The 64-bit value whose least significant byte lies `offset`
    /// positions below the top of the stack.
    pub fn peek_u64(&self, offset: usize) -> (r: u64)
        requires
            offset + 8 <= self.stack@.len(),
        ensures
            r == u64_of_be(self.stack@[self.stack@.len() - offset - 8], self.stack@[self.stack@.len() - offset - 7], self.stack@[self.stack@.len() - offset - 6], self.stack@[self.stack@.len() - offset - 5], self.stack@[self.stack@.len() - offset - 4], self.stack@[self.stack@.len() - offset - 3], self.stack@[self.stack@.len() - offset - 2], self.stack@[self.stack@.len() - offset - 1]),
    {
        proof {
            assert(self.stack.len() == self.stack@.len());
        }
        let b0 = self.peek_stack(offset + 0);
        let b1 = self.peek_stack(offset + 1);
        let b2 = self.peek_stack(offset + 2);
        let b3 = self.peek_stack(offset + 3);
        let b4 = self.peek_stack(offset + 4);
        let b5 = self.peek_stack(offset + 5);
        let b6 = self.peek_stack(offset + 6);
        let b7 = self.peek_stack(offset + 7);
        Self::to_u64(b7, b6, b5, b4, b3, b2, b1, b0)
    }

    /// The 64-bit value at `offset`, cast to `usize`.
    pub fn peek_usize(&self, offset: usize) -> (r: usize)
        requires
            offset + 8 <= self.stack@.len(),
        ensures
            r == u64_of_be(
                self.stack@[self.stack@.len() - offset - 8],
                self.stack@[self.stack@.len() - offset - 7],
                self.stack@[self.stack@.len() - offset - 6],
                self.stack@[self.stack@.len() - offset - 5],
                self.stack@[self.stack@.len() - offset - 4],
                self.stack@[self.stack@.len() - offset - 3],
                self.stack@[self.stack@.len() - offset - 2],
                self.stack@[self.stack@.len() - offset - 1],
            ) as usize,
    {
        self.peek_u64(offset) as usize
    }

    /// Duplicate the topmost byte without consuming it.
    pub fn copy_u8(&mut self)
        requires
            old(self).stack@.len() >= 1,
        ensures
            final(self)@ == (ProcView {
                stack: old(self).stack@.push(top_u8(old(self).stack@)),
                ..old(self)@
            }),
    {
        let value = self.peek_u8(0);
        self.stack.push(value);
    }

    /// Duplicate the topmost 16-bit value (2 bytes) without consuming
    /// it.
    pub fn copy_u16(&mut self)
        requires
            old(self).stack@.len() >= 2,
        ensures
            final(self)@ == (ProcView {
                stack: old(self).stack@ + old(self).stack@.subrange(
                    old(self).stack@.len() - 2,
                    old(self).stack@.len() as int,
                ),
                ..old(self)@
            }),
    {
        let b1 = self.peek_stack(1);
        let b0 = self.peek_stack(0);
        self.stack.push(b1);
        self.stack.push(b0);
        proof {
            assert(self.stack@ =~= old(self).stack@ + old(self).stack@.subrange(
                old(self).stack@.len() - 2,
                old(self).stack@.len() as int,
            ));
        }
    }

    /// Duplicate the topmost 32-bit value (4 bytes) without consuming
    /// it.
    pub fn copy_u32(&mut self)
        requires
            old(self).stack@.len() >= 4,
        ensures
            final(self)@ == (ProcView {
                stack: old(self).stack@ + old(self).stack@.subrange(
                    old(self).stack@.len() - 4,
                    old(self).stack@.len() as int,
                ),
                ..old(self)@
            }),
    {
        let b3 = self.peek_stack(3);
        let b2 = self.peek_stack(2);
        let b1 = self.peek_stack(1);
        let b0 = self.peek_stack(0);
        self.stack.push(b3);
        self.stack.push(b2);
        self.stack.push(b1);
        self.stack.push(b0);
        proof {
            assert(self.stack@ =~= old(self).stack@ + old(self).stack@.subrange(
                old(self).stack@.len() - 4,
                old(self).stack@.len() as int,
            ));
        }
    }

    /// Duplicate the topmost 64-bit value (8 bytes) without consuming
    /// it.
    #[verifier::rlimit(30)]
    pub fn copy_u64(&mut self)
        requires
            old(self).stack@.len() >= 8,
        ensures
            final(self)@ == (ProcView {
                stack: old(self).stack@ + old(self).stack@.subrange(
                    old(self).stack@.len() - 8,
                    old(self).stack@.len() as int,
                ),
                ..old(self)@
            }),
    {
        let b7 = self.peek_stack(7);
        let b6 = self.peek_stack(6);
        let b5 = self.peek_stack(5);
        let b4 = self.peek_stack(4);
        let b3 = self.peek_stack(3);
        let b2 = self.peek_stack(2);
        let b1 = self.peek_stack(1);
        let b0 = self.peek_stack(0);
        self.stack.push(b7);
        self.stack.push(b6);
        self.stack.push(b5);
        self.stack.push(b4);
        self.stack.push(b3);
        self.stack.push(b2);
        self.stack.push(b1);
        self.stack.push(b0);
        proof {
            assert(self.stack@ =~= old(self).stack@ + old(self).stack@.subrange(
                old(self).stack@.len() - 8,
                old(self).stack@.len() as int,
            ));
        }
    }

    /// `halt`: the process is finished; it is never scheduled again.
    pub fn halt(&mut self)
        ensures
            final(self)@ == (ProcView { state: State::Terminated, ..old(self)@ }),
    {
        self.state = State::Terminated;
    }

    /// `wait`: a cooperative yield; the process stays eligible for
    /// rescheduling.
    pub fn wait(&mut self)
        ensures
            final(self)@ == (ProcView { state: State::Waiting, ..old(self)@ }),
    {
        self.state = State::Waiting;
    }

    /// `ret`: return to the address saved by the matching `call`.  The call
    /// stack shrinks by exactly one entry.
    pub fn ret(&mut self)
        requires
            old(self).function_stack@.len() >= 1,
        ensures
            final(self)@ == (ProcView {
                program_counter: old(self).function_stack@.last(),
                function_stack: old(self).function_stack@.drop_last(),
                ..old(self)@
            }),
    {
        let index = self.function_stack.pop().unwrap();
        self.program_counter = index;
        proof {
            assert(self.function_stack@ =~= old(self).function_stack@.drop_last());
        }
    }
}

} // verus!
