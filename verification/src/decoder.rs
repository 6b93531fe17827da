//! The operand decoder and the bounds-checked memory arena.
//!
//! Each operand is self-describing: one tag byte selects the addressing
//! mode, and the Immediate/Pointer-family modes continue with one size tag
//! plus that many literal or address bytes.  `read` resolves an operand to a
//! value of the requested width; `write` resolves one to a storage location
//! (a register or an arena range) and stores a value there.  An Immediate
//! operand is not a storage location: writing to one is an `InvalidOperand`
//! fault.
//!
//! Raw memory is an owned, bounds-checked byte arena shared by every
//! process of a machine.  Addresses are arena offsets; multi-byte values in
//! the arena are big-endian, like the program encoding and the execution
//! stack.  An address outside the arena is an `InvalidOperand` fault, never
//! undefined behaviour.

use vstd::prelude::*;

use crate::bytes::be_bytes_u16;
use crate::bytes::be_bytes_u32;
use crate::bytes::be_bytes_u64;
use crate::fault::Fault;
use crate::instrs::decode_byte;
use crate::instrs::Instr;
use crate::process::prog_u16_at;
use crate::process::prog_u32_at;
use crate::process::prog_u64_at;
use crate::process::same_but_pc;
use crate::process::same_but_pc_stack;
use crate::process::top_u8;
use crate::process::top_u16;
use crate::process::top_u32;
use crate::process::top_u64;
use crate::process::ProcView;
use crate::process::Process;
use crate::regs::Regs;

verus! {

/// A 64-bit value truncated to its low `nbytes` bytes.
pub open spec fn trunc_to(v: u64, nbytes: int) -> u64 {
    if nbytes == 1 {
        (v % 0x100) as u64
    } else if nbytes == 2 {
        (v % 0x1_0000) as u64
    } else if nbytes == 4 {
        (v % 0x1_0000_0000) as u64
    } else {
        v
    }
}

/// The big-endian bytes of the low `nbytes` bytes of a 64-bit value.
pub open spec fn be_bytes_n(v: u64, nbytes: int) -> Seq<u8> {
    if nbytes == 1 {
        seq![v as u8]
    } else if nbytes == 2 {
        be_bytes_u16(v as u16)
    } else if nbytes == 4 {
        be_bytes_u32(v as u32)
    } else {
        be_bytes_u64(v)
    }
}

/// The big-endian value of `nbytes` bytes of a sequence starting at `i`.
pub open spec fn be_value_at(s: Seq<u8>, i: int, nbytes: int) -> u64
    recommends
        0 <= i && i + nbytes <= s.len(),
{
    if nbytes == 1 {
        s[i] as u64
    } else if nbytes == 2 {
        prog_u16_at(s, i) as u64
    } else if nbytes == 4 {
        prog_u32_at(s, i) as u64
    } else {
        prog_u64_at(s, i) as u64
    }
}

/// What dereferencing `nbytes` bytes of the arena at `addr` yields: the
/// big-endian value, or an `InvalidOperand` fault outside the arena.
pub open spec fn mem_read_spec(mem: Seq<u8>, addr: u64, nbytes: int) -> Result<u64, Fault> {
    if addr + nbytes <= mem.len() {
        Ok(be_value_at(mem, addr as int, nbytes))
    } else {
        Err(Fault::InvalidOperand)
    }
}

/// A sequence with `bytes` overwritten starting at `addr`.
pub open spec fn mem_written(mem: Seq<u8>, addr: int, bytes: Seq<u8>) -> Seq<u8> {
    Seq::new(
        mem.len(),
        |i: int|
            if addr <= i < addr + bytes.len() {
                bytes[i - addr]
            } else {
                mem[i]
            },
    )
}

/// What writing the low `nbytes` bytes of `v` at `addr` leaves in the
/// arena, or an `InvalidOperand` fault outside it.
pub open spec fn mem_write_spec(mem: Seq<u8>, addr: u64, nbytes: int, v: u64) -> Result<
    Seq<u8>,
    Fault,
> {
    if addr + nbytes <= mem.len() {
        Ok(mem_written(mem, addr as int, be_bytes_n(v, nbytes)))
    } else {
        Err(Fault::InvalidOperand)
    }
}

/// What a size-tagged value at `pc` decodes to: one size tag byte, then
/// that many big-endian literal bytes, zero-extended to 64 bits; and the
/// program counter after the operand.
pub open spec fn read_size_spec(prog: Seq<u8>, pc: u64) -> Result<(u64, u64), Fault> {
    if pc >= prog.len() {
        Err(Fault::ProgramCounterOutOfBounds)
    } else {
        match decode_byte(prog[pc as int]) {
            Some(Instr::size_8) => if pc + 2 <= prog.len() {
                Ok((prog[pc + 1] as u64, (pc + 2) as u64))
            } else {
                Err(Fault::ProgramCounterOutOfBounds)
            },
            Some(Instr::size_16) => if pc + 3 <= prog.len() {
                Ok((prog_u16_at(prog, pc + 1) as u64, (pc + 3) as u64))
            } else {
                Err(Fault::ProgramCounterOutOfBounds)
            },
            Some(Instr::size_32) => if pc + 5 <= prog.len() {
                Ok((prog_u32_at(prog, pc + 1) as u64, (pc + 5) as u64))
            } else {
                Err(Fault::ProgramCounterOutOfBounds)
            },
            Some(Instr::size_64) => if pc + 9 <= prog.len() {
                Ok((prog_u64_at(prog, pc + 1) as u64, (pc + 9) as u64))
            } else {
                Err(Fault::ProgramCounterOutOfBounds)
            },
            _ => Err(Fault::InvalidOperand),
        }
    }
}

/// What a full operand read of `nbytes` bytes at `pc` resolves to: the
/// value (zero-extended to 64 bits) and the program counter after the
/// operand.  The decode consults the arena for the pointer modes and the
/// register file for the register mode, in the order the bytes are
/// consumed.
pub open spec fn read_value_spec(
    prog: Seq<u8>,
    pc: u64,
    mem: Seq<u8>,
    regs: Seq<u64>,
    nbytes: int,
) -> Result<(u64, u64), Fault> {
    if pc >= prog.len() {
        Err(Fault::ProgramCounterOutOfBounds)
    } else {
        match decode_byte(prog[pc as int]) {
            Some(Instr::type_int) => match read_size_spec(prog, (pc + 1) as u64) {
                Ok((v, p2)) => Ok((trunc_to(v, nbytes), p2)),
                Err(f) => Err(f),
            },
            Some(Instr::type_ptr) => match read_size_spec(prog, (pc + 1) as u64) {
                Ok((addr, p2)) => match mem_read_spec(mem, addr, nbytes) {
                    Ok(v) => Ok((v, p2)),
                    Err(f) => Err(f),
                },
                Err(f) => Err(f),
            },
            Some(Instr::type_ptr_off) => match read_size_spec(prog, (pc + 1) as u64) {
                Ok((base, p2)) => match read_size_spec(prog, p2) {
                    Ok((off, p3)) => if base + off <= u64::MAX {
                        match mem_read_spec(mem, (base + off) as u64, nbytes) {
                            Ok(v) => Ok((v, p3)),
                            Err(f) => Err(f),
                        }
                    } else {
                        Err(Fault::InvalidOperand)
                    },
                    Err(f) => Err(f),
                },
                Err(f) => Err(f),
            },
            Some(Instr::type_idr_ptr) => match read_size_spec(prog, (pc + 1) as u64) {
                Ok((a, p2)) => match mem_read_spec(mem, a, 8) {
                    Ok(b) => match mem_read_spec(mem, b, nbytes) {
                        Ok(v) => Ok((v, p2)),
                        Err(f) => Err(f),
                    },
                    Err(f) => Err(f),
                },
                Err(f) => Err(f),
            },
            Some(Instr::type_idr_ptr_off) => match read_size_spec(prog, (pc + 1) as u64) {
                Ok((a, p2)) => match mem_read_spec(mem, a, 8) {
                    Ok(b) => match read_size_spec(prog, p2) {
                        Ok((off, p3)) => if b + off <= u64::MAX {
                            match mem_read_spec(mem, (b + off) as u64, nbytes) {
                                Ok(v) => Ok((v, p3)),
                                Err(f) => Err(f),
                            }
                        } else {
                            Err(Fault::InvalidOperand)
                        },
                        Err(f) => Err(f),
                    },
                    Err(f) => Err(f),
                },
                Err(f) => Err(f),
            },
            Some(Instr::type_reg) => if pc + 2 <= prog.len() {
                if prog[pc + 1] < 32 {
                    Ok((trunc_to(regs[prog[pc + 1] as int], nbytes), (pc + 2) as u64))
                } else {
                    Err(Fault::InvalidOperand)
                }
            } else {
                Err(Fault::ProgramCounterOutOfBounds)
            },
            _ => Err(Fault::InvalidOperand),
        }
    }
}

/// What a full operand write of the low `nbytes` bytes of `value` at `pc`
/// does: the program counter after the operand, the new arena, and the new
/// register file.  An Immediate operand is not a storage location.
pub open spec fn write_value_spec(
    prog: Seq<u8>,
    pc: u64,
    mem: Seq<u8>,
    regs: Seq<u64>,
    nbytes: int,
    value: u64,
) -> Result<(u64, Seq<u8>, Seq<u64>), Fault> {
    if pc >= prog.len() {
        Err(Fault::ProgramCounterOutOfBounds)
    } else {
        match decode_byte(prog[pc as int]) {
            Some(Instr::type_int) => Err(Fault::InvalidOperand),
            Some(Instr::type_ptr) => match read_size_spec(prog, (pc + 1) as u64) {
                Ok((addr, p2)) => match mem_write_spec(mem, addr, nbytes, value) {
                    Ok(m2) => Ok((p2, m2, regs)),
                    Err(f) => Err(f),
                },
                Err(f) => Err(f),
            },
            Some(Instr::type_ptr_off) => match read_size_spec(prog, (pc + 1) as u64) {
                Ok((base, p2)) => match read_size_spec(prog, p2) {
                    Ok((off, p3)) => if base + off <= u64::MAX {
                        match mem_write_spec(mem, (base + off) as u64, nbytes, value) {
                            Ok(m2) => Ok((p3, m2, regs)),
                            Err(f) => Err(f),
                        }
                    } else {
                        Err(Fault::InvalidOperand)
                    },
                    Err(f) => Err(f),
                },
                Err(f) => Err(f),
            },
            Some(Instr::type_idr_ptr) => match read_size_spec(prog, (pc + 1) as u64) {
                Ok((a, p2)) => match mem_read_spec(mem, a, 8) {
                    Ok(b) => match mem_write_spec(mem, b, nbytes, value) {
                        Ok(m2) => Ok((p2, m2, regs)),
                        Err(f) => Err(f),
                    },
                    Err(f) => Err(f),
                },
                Err(f) => Err(f),
            },
            Some(Instr::type_idr_ptr_off) => match read_size_spec(prog, (pc + 1) as u64) {
                Ok((a, p2)) => match mem_read_spec(mem, a, 8) {
                    Ok(b) => match read_size_spec(prog, p2) {
                        Ok((off, p3)) => if b + off <= u64::MAX {
                            match mem_write_spec(mem, (b + off) as u64, nbytes, value) {
                                Ok(m2) => Ok((p3, m2, regs)),
                                Err(f) => Err(f),
                            }
                        } else {
                            Err(Fault::InvalidOperand)
                        },
                        Err(f) => Err(f),
                    },
                    Err(f) => Err(f),
                },
                Err(f) => Err(f),
            },
            Some(Instr::type_reg) => if pc + 2 <= prog.len() {
                if prog[pc + 1] < 32 {
                    Ok(
                        (
                            (pc + 2) as u64,
                            mem,
                            regs.update(
                                prog[pc + 1] as int,
                                Regs::written_cell(prog[pc + 1] as int, value),
                            ),
                        ),
                    )
                } else {
                    Err(Fault::InvalidOperand)
                }
            } else {
                Err(Fault::ProgramCounterOutOfBounds)
            },
            _ => Err(Fault::InvalidOperand),
        }
    }
}


/// Dereference 1 byte of the arena at `addr`.
pub fn mem_read_u8(mem: &Vec<u8>, addr: u64) -> (r: Result<u8, Fault>)
    ensures
        mem_read_spec(mem@, addr, 1) matches Ok(v) ==> r == Ok::<u8, Fault>(v as u8),
        mem_read_spec(mem@, addr, 1) matches Err(f) ==> r == Err::<u8, Fault>(f),
{
    let n = mem.len();
    if (n as u64) < 1 || addr > n as u64 - 1 {
        return Err(Fault::InvalidOperand);
    }
    let i = addr as usize;
    Ok(mem[i])
}

/// Dereference 2 bytes of the arena at `addr`.
pub fn mem_read_u16(mem: &Vec<u8>, addr: u64) -> (r: Result<u16, Fault>)
    ensures
        mem_read_spec(mem@, addr, 2) matches Ok(v) ==> r == Ok::<u16, Fault>(v as u16),
        mem_read_spec(mem@, addr, 2) matches Err(f) ==> r == Err::<u16, Fault>(f),
{
    let n = mem.len();
    if (n as u64) < 2 || addr > n as u64 - 2 {
        return Err(Fault::InvalidOperand);
    }
    let i = addr as usize;
    let b0 = mem[i + 0];
    let b1 = mem[i + 1];
    Ok(Process::to_u16(b0, b1))
}

/// Dereference 4 bytes of the arena at `addr`.
pub fn mem_read_u32(mem: &Vec<u8>, addr: u64) -> (r: Result<u32, Fault>)
    ensures
        mem_read_spec(mem@, addr, 4) matches Ok(v) ==> r == Ok::<u32, Fault>(v as u32),
        mem_read_spec(mem@, addr, 4) matches Err(f) ==> r == Err::<u32, Fault>(f),
{
    let n = mem.len();
    if (n as u64) < 4 || addr > n as u64 - 4 {
        return Err(Fault::InvalidOperand);
    }
    let i = addr as usize;
    let b0 = mem[i + 0];
    let b1 = mem[i + 1];
    let b2 = mem[i + 2];
    let b3 = mem[i + 3];
    Ok(Process::to_u32(b0, b1, b2, b3))
}

/// Dereference 8 bytes of the arena at `addr`.
pub fn mem_read_u64(mem: &Vec<u8>, addr: u64) -> (r: Result<u64, Fault>)
    ensures
        mem_read_spec(mem@, addr, 8) matches Ok(v) ==> r == Ok::<u64, Fault>(v as u64),
        mem_read_spec(mem@, addr, 8) matches Err(f) ==> r == Err::<u64, Fault>(f),
{
    let n = mem.len();
    if (n as u64) < 8 || addr > n as u64 - 8 {
        return Err(Fault::InvalidOperand);
    }
    let i = addr as usize;
    let b0 = mem[i + 0];
    let b1 = mem[i + 1];
    let b2 = mem[i + 2];
    let b3 = mem[i + 3];
    let b4 = mem[i + 4];
    let b5 = mem[i + 5];
    let b6 = mem[i + 6];
    let b7 = mem[i + 7];
    Ok(Process::to_u64(b0, b1, b2, b3, b4, b5, b6, b7))
}

/// Store 1 byte at `addr` of the arena, big-endian.
pub fn mem_write_u8(mem: &mut Vec<u8>, addr: u64, v: u8) -> (r: Result<(), Fault>)
    ensures
        mem_write_spec(old(mem)@, addr, 1, v as u64) matches Ok(m2) ==> r == Ok::<(), Fault>(()) && final(mem)@ == m2,
        mem_write_spec(old(mem)@, addr, 1, v as u64) matches Err(f) ==> r == Err::<(), Fault>(f) && final(mem)@ == old(mem)@,
{
    let n = mem.len();
    if (n as u64) < 1 || addr > n as u64 - 1 {
        return Err(Fault::InvalidOperand);
    }
    let i = addr as usize;
    mem[i] = v;
    proof {
        assert(mem@ =~= mem_written(old(mem)@, addr as int, be_bytes_n(v as u64, 1)));
    }
    Ok(())
}

/// Store 2 bytes at `addr` of the arena, big-endian.
pub fn mem_write_u16(mem: &mut Vec<u8>, addr: u64, v: u16) -> (r: Result<(), Fault>)
    ensures
        mem_write_spec(old(mem)@, addr, 2, v as u64) matches Ok(m2) ==> r == Ok::<(), Fault>(()) && final(mem)@ == m2,
        mem_write_spec(old(mem)@, addr, 2, v as u64) matches Err(f) ==> r == Err::<(), Fault>(f) && final(mem)@ == old(mem)@,
{
    let n = mem.len();
    if (n as u64) < 2 || addr > n as u64 - 2 {
        return Err(Fault::InvalidOperand);
    }
    let i = addr as usize;
    mem[i + 0] = ((v / 0x100) % 0x100) as u8;
    mem[i + 1] = (v % 0x100) as u8;
    proof {
        assert(mem@ =~= mem_written(old(mem)@, addr as int, be_bytes_n(v as u64, 2)));
    }
    Ok(())
}

/// Store 4 bytes at `addr` of the arena, big-endian.
pub fn mem_write_u32(mem: &mut Vec<u8>, addr: u64, v: u32) -> (r: Result<(), Fault>)
    ensures
        mem_write_spec(old(mem)@, addr, 4, v as u64) matches Ok(m2) ==> r == Ok::<(), Fault>(()) && final(mem)@ == m2,
        mem_write_spec(old(mem)@, addr, 4, v as u64) matches Err(f) ==> r == Err::<(), Fault>(f) && final(mem)@ == old(mem)@,
{
    let n = mem.len();
    if (n as u64) < 4 || addr > n as u64 - 4 {
        return Err(Fault::InvalidOperand);
    }
    let i = addr as usize;
    mem[i + 0] = ((v / 0x1000000) % 0x100) as u8;
    mem[i + 1] = ((v / 0x10000) % 0x100) as u8;
    mem[i + 2] = ((v / 0x100) % 0x100) as u8;
    mem[i + 3] = (v % 0x100) as u8;
    proof {
        assert(mem@ =~= mem_written(old(mem)@, addr as int, be_bytes_n(v as u64, 4)));
    }
    Ok(())
}

/// Store 8 bytes at `addr` of the arena, big-endian.
pub fn mem_write_u64(mem: &mut Vec<u8>, addr: u64, v: u64) -> (r: Result<(), Fault>)
    ensures
        mem_write_spec(old(mem)@, addr, 8, v as u64) matches Ok(m2) ==> r == Ok::<(), Fault>(()) && final(mem)@ == m2,
        mem_write_spec(old(mem)@, addr, 8, v as u64) matches Err(f) ==> r == Err::<(), Fault>(f) && final(mem)@ == old(mem)@,
{
    let n = mem.len();
    if (n as u64) < 8 || addr > n as u64 - 8 {
        return Err(Fault::InvalidOperand);
    }
    let i = addr as usize;
    mem[i + 0] = ((v / 0x100000000000000) % 0x100) as u8;
    mem[i + 1] = ((v / 0x1000000000000) % 0x100) as u8;
    mem[i + 2] = ((v / 0x10000000000) % 0x100) as u8;
    mem[i + 3] = ((v / 0x100000000) % 0x100) as u8;
    mem[i + 4] = ((v / 0x1000000) % 0x100) as u8;
    mem[i + 5] = ((v / 0x10000) % 0x100) as u8;
    mem[i + 6] = ((v / 0x100) % 0x100) as u8;
    mem[i + 7] = (v % 0x100) as u8;
    proof {
        assert(mem@ =~= mem_written(old(mem)@, addr as int, be_bytes_n(v as u64, 8)));
    }
    Ok(())
}

impl Process {
    /// Read one size-tagged value: a size tag byte, then that many
    /// big-endian bytes, zero-extended to 64 bits.
    pub(crate) fn read_size_raw(&mut self) -> (r: Result<u64, Fault>)
        ensures
            read_size_spec(old(self)@.program, old(self)@.program_counter) matches Ok(vp) ==> r == Ok::<u64, Fault>(vp.0) && final(self)@ == (ProcView { program_counter: vp.1, ..old(self)@ }),
            read_size_spec(old(self)@.program, old(self)@.program_counter) matches Err(f) ==> r == Err::<u64, Fault>(f) && same_but_pc(old(self)@, final(self)@),
    {
        let n = self.program.len();
        if self.program_counter >= n as u64 {
            return Err(Fault::ProgramCounterOutOfBounds);
        }
        let tag = self.program[self.program_counter as usize];
        self.program_counter = self.program_counter + 1;
        match Instr::from_byte(tag) {
            Some(Instr::size_8) => if n as u64 - self.program_counter >= 1 {
                Ok(self.next_u8() as u64)
            } else {
                Err(Fault::ProgramCounterOutOfBounds)
            },
            Some(Instr::size_16) => if n as u64 - self.program_counter >= 2 {
                Ok(self.next_u16() as u64)
            } else {
                Err(Fault::ProgramCounterOutOfBounds)
            },
            Some(Instr::size_32) => if n as u64 - self.program_counter >= 4 {
                Ok(self.next_u32() as u64)
            } else {
                Err(Fault::ProgramCounterOutOfBounds)
            },
            Some(Instr::size_64) => if n as u64 - self.program_counter >= 8 {
                Ok(self.next_u64())
            } else {
                Err(Fault::ProgramCounterOutOfBounds)
            },
            _ => Err(Fault::InvalidOperand),
        }
    }

    /// Read one size-tagged value, truncated to 8 bits.
    pub fn read_size_8(&mut self) -> (r: Result<u8, Fault>)
        ensures
            read_size_spec(old(self)@.program, old(self)@.program_counter) matches Ok(vp) ==> r == Ok::<u8, Fault>(trunc_to(vp.0, 1) as u8) && final(self)@ == (ProcView {
                program_counter: vp.1,
                ..old(self)@
            }),
            read_size_spec(old(self)@.program, old(self)@.program_counter) matches Err(f) ==> r == Err::<u8, Fault>(f) && same_but_pc(old(self)@, final(self)@),
    {
        let v = self.read_size_raw()?;
        Ok((v % 0x100) as u8)
    }

    /// Read one size-tagged value, truncated to 16 bits.
    pub fn read_size_16(&mut self) -> (r: Result<u16, Fault>)
        ensures
            read_size_spec(old(self)@.program, old(self)@.program_counter) matches Ok(vp) ==> r == Ok::<u16, Fault>(trunc_to(vp.0, 2) as u16) && final(self)@ == (ProcView {
                program_counter: vp.1,
                ..old(self)@
            }),
            read_size_spec(old(self)@.program, old(self)@.program_counter) matches Err(f) ==> r == Err::<u16, Fault>(f) && same_but_pc(old(self)@, final(self)@),
    {
        let v = self.read_size_raw()?;
        Ok((v % 0x1_0000) as u16)
    }

    /// Read one size-tagged value, truncated to 32 bits.
    pub fn read_size_32(&mut self) -> (r: Result<u32, Fault>)
        ensures
            read_size_spec(old(self)@.program, old(self)@.program_counter) matches Ok(vp) ==> r == Ok::<u32, Fault>(trunc_to(vp.0, 4) as u32) && final(self)@ == (ProcView {
                program_counter: vp.1,
                ..old(self)@
            }),
            read_size_spec(old(self)@.program, old(self)@.program_counter) matches Err(f) ==> r == Err::<u32, Fault>(f) && same_but_pc(old(self)@, final(self)@),
    {
        let v = self.read_size_raw()?;
        Ok((v % 0x1_0000_0000) as u32)
    }

    /// Read one size-tagged value, truncated to 64 bits.
    pub fn read_size_64(&mut self) -> (r: Result<u64, Fault>)
        ensures
            read_size_spec(old(self)@.program, old(self)@.program_counter) matches Ok(vp) ==> r == Ok::<u64, Fault>(trunc_to(vp.0, 8) as u64) && final(self)@ == (ProcView {
                program_counter: vp.1,
                ..old(self)@
            }),
            read_size_spec(old(self)@.program, old(self)@.program_counter) matches Err(f) ==> r == Err::<u64, Fault>(f) && same_but_pc(old(self)@, final(self)@),
    {
        let v = self.read_size_raw()?;
        Ok(v)
    }

    /// Read one size-tagged value as a machine-width address.
    pub fn read_size_usize(&mut self) -> (r: Result<usize, Fault>)
        ensures
            read_size_spec(old(self)@.program, old(self)@.program_counter) matches Ok(vp) ==> r == Ok::<usize, Fault>(vp.0 as usize) && final(self)@ == (ProcView {
                program_counter: vp.1,
                ..old(self)@
            }),
            read_size_spec(old(self)@.program, old(self)@.program_counter) matches Err(f) ==> r == Err::<usize, Fault>(f) && same_but_pc(old(self)@, final(self)@),
    {
        let v = self.read_size_raw()?;
        Ok(v as usize)
    }

    /// Resolve one operand to a 8-bit value: a tag byte selects the
    /// addressing mode, and the program, the arena and the register file
    /// are consulted as the mode directs.
    pub fn read_u8(&mut self, mem: &Vec<u8>) -> (r: Result<u8, Fault>)
        ensures
            read_value_spec(
                old(self)@.program,
                old(self)@.program_counter,
                mem@,
                old(self)@.regs,
                1,
            ) matches Ok(vp) ==> r == Ok::<u8, Fault>(vp.0 as u8) && final(self)@ == (ProcView {
                program_counter: vp.1,
                ..old(self)@
            }),
            read_value_spec(
                old(self)@.program,
                old(self)@.program_counter,
                mem@,
                old(self)@.regs,
                1,
            ) matches Err(f) ==> r == Err::<u8, Fault>(f) && same_but_pc(old(self)@, final(self)@),
    {
        let n = self.program.len();
        if self.program_counter >= n as u64 {
            return Err(Fault::ProgramCounterOutOfBounds);
        }
        let tag = self.program[self.program_counter as usize];
        self.program_counter = self.program_counter + 1;
        match Instr::from_byte(tag) {
            Some(Instr::type_int) => {
                let v = self.read_size_raw()?;
                Ok((v % 0x100) as u8)
            },
            Some(Instr::type_ptr) => {
                let addr = self.read_size_raw()?;
                let v = mem_read_u8(mem, addr)?;
                Ok(v)
            },
            Some(Instr::type_ptr_off) => {
                let base = self.read_size_raw()?;
                let off = self.read_size_raw()?;
                match base.checked_add(off) {
                    Some(addr) => {
                        let v = mem_read_u8(mem, addr)?;
                        Ok(v)
                    },
                    None => Err(Fault::InvalidOperand),
                }
            },
            Some(Instr::type_idr_ptr) => {
                let a = self.read_size_raw()?;
                let b = mem_read_u64(mem, a)?;
                let v = mem_read_u8(mem, b)?;
                Ok(v)
            },
            Some(Instr::type_idr_ptr_off) => {
                let a = self.read_size_raw()?;
                let b = mem_read_u64(mem, a)?;
                let off = self.read_size_raw()?;
                match b.checked_add(off) {
                    Some(addr) => {
                        let v = mem_read_u8(mem, addr)?;
                        Ok(v)
                    },
                    None => Err(Fault::InvalidOperand),
                }
            },
            Some(Instr::type_reg) => {
                if self.program_counter >= n as u64 {
                    return Err(Fault::ProgramCounterOutOfBounds);
                }
                let idx = self.program[self.program_counter as usize];
                self.program_counter = self.program_counter + 1;
                if idx < 32 {
                    let c = self.regs.get_u64(idx as usize);
                    Ok((c % 0x100) as u8)
                } else {
                    Err(Fault::InvalidOperand)
                }
            },
            _ => Err(Fault::InvalidOperand),
        }
    }

    /// Resolve one operand to a 16-bit value: a tag byte selects the
    /// addressing mode, and the program, the arena and the register file
    /// are consulted as the mode directs.
    pub fn read_u16(&mut self, mem: &Vec<u8>) -> (r: Result<u16, Fault>)
        ensures
            read_value_spec(
                old(self)@.program,
                old(self)@.program_counter,
                mem@,
                old(self)@.regs,
                2,
            ) matches Ok(vp) ==> r == Ok::<u16, Fault>(vp.0 as u16) && final(self)@ == (ProcView {
                program_counter: vp.1,
                ..old(self)@
            }),
            read_value_spec(
                old(self)@.program,
                old(self)@.program_counter,
                mem@,
                old(self)@.regs,
                2,
            ) matches Err(f) ==> r == Err::<u16, Fault>(f) && same_but_pc(old(self)@, final(self)@),
    {
        let n = self.program.len();
        if self.program_counter >= n as u64 {
            return Err(Fault::ProgramCounterOutOfBounds);
        }
        let tag = self.program[self.program_counter as usize];
        self.program_counter = self.program_counter + 1;
        match Instr::from_byte(tag) {
            Some(Instr::type_int) => {
                let v = self.read_size_raw()?;
                Ok((v % 0x1_0000) as u16)
            },
            Some(Instr::type_ptr) => {
                let addr = self.read_size_raw()?;
                let v = mem_read_u16(mem, addr)?;
                Ok(v)
            },
            Some(Instr::type_ptr_off) => {
                let base = self.read_size_raw()?;
                let off = self.read_size_raw()?;
                match base.checked_add(off) {
                    Some(addr) => {
                        let v = mem_read_u16(mem, addr)?;
                        Ok(v)
                    },
                    None => Err(Fault::InvalidOperand),
                }
            },
            Some(Instr::type_idr_ptr) => {
                let a = self.read_size_raw()?;
                let b = mem_read_u64(mem, a)?;
                let v = mem_read_u16(mem, b)?;
                Ok(v)
            },
            Some(Instr::type_idr_ptr_off) => {
                let a = self.read_size_raw()?;
                let b = mem_read_u64(mem, a)?;
                let off = self.read_size_raw()?;
                match b.checked_add(off) {
                    Some(addr) => {
                        let v = mem_read_u16(mem, addr)?;
                        Ok(v)
                    },
                    None => Err(Fault::InvalidOperand),
                }
            },
            Some(Instr::type_reg) => {
                if self.program_counter >= n as u64 {
                    return Err(Fault::ProgramCounterOutOfBounds);
                }
                let idx = self.program[self.program_counter as usize];
                self.program_counter = self.program_counter + 1;
                if idx < 32 {
                    let c = self.regs.get_u64(idx as usize);
                    Ok((c % 0x1_0000) as u16)
                } else {
                    Err(Fault::InvalidOperand)
                }
            },
            _ => Err(Fault::InvalidOperand),
        }
    }

    /// Resolve one operand to a 32-bit value: a tag byte selects the
    /// addressing mode, and the program, the arena and the register file
    /// are consulted as the mode directs.
    pub fn read_u32(&mut self, mem: &Vec<u8>) -> (r: Result<u32, Fault>)
        ensures
            read_value_spec(
                old(self)@.program,
                old(self)@.program_counter,
                mem@,
                old(self)@.regs,
                4,
            ) matches Ok(vp) ==> r == Ok::<u32, Fault>(vp.0 as u32) && final(self)@ == (ProcView {
                program_counter: vp.1,
                ..old(self)@
            }),
            read_value_spec(
                old(self)@.program,
                old(self)@.program_counter,
                mem@,
                old(self)@.regs,
                4,
            ) matches Err(f) ==> r == Err::<u32, Fault>(f) && same_but_pc(old(self)@, final(self)@),
    {
        let n = self.program.len();
        if self.program_counter >= n as u64 {
            return Err(Fault::ProgramCounterOutOfBounds);
        }
        let tag = self.program[self.program_counter as usize];
        self.program_counter = self.program_counter + 1;
        match Instr::from_byte(tag) {
            Some(Instr::type_int) => {
                let v = self.read_size_raw()?;
                Ok((v % 0x1_0000_0000) as u32)
            },
            Some(Instr::type_ptr) => {
                let addr = self.read_size_raw()?;
                let v = mem_read_u32(mem, addr)?;
                Ok(v)
            },
            Some(Instr::type_ptr_off) => {
                let base = self.read_size_raw()?;
                let off = self.read_size_raw()?;
                match base.checked_add(off) {
                    Some(addr) => {
                        let v = mem_read_u32(mem, addr)?;
                        Ok(v)
                    },
                    None => Err(Fault::InvalidOperand),
                }
            },
            Some(Instr::type_idr_ptr) => {
                let a = self.read_size_raw()?;
                let b = mem_read_u64(mem, a)?;
                let v = mem_read_u32(mem, b)?;
                Ok(v)
            },
            Some(Instr::type_idr_ptr_off) => {
                let a = self.read_size_raw()?;
                let b = mem_read_u64(mem, a)?;
                let off = self.read_size_raw()?;
                match b.checked_add(off) {
                    Some(addr) => {
                        let v = mem_read_u32(mem, addr)?;
                        Ok(v)
                    },
                    None => Err(Fault::InvalidOperand),
                }
            },
            Some(Instr::type_reg) => {
                if self.program_counter >= n as u64 {
                    return Err(Fault::ProgramCounterOutOfBounds);
                }
                let idx = self.program[self.program_counter as usize];
                self.program_counter = self.program_counter + 1;
                if idx < 32 {
                    let c = self.regs.get_u64(idx as usize);
                    Ok((c % 0x1_0000_0000) as u32)
                } else {
                    Err(Fault::InvalidOperand)
                }
            },
            _ => Err(Fault::InvalidOperand),
        }
    }

    /// Resolve one operand to a 64-bit value: a tag byte selects the
    /// addressing mode, and the program, the arena and the register file
    /// are consulted as the mode directs.
    pub fn read_u64(&mut self, mem: &Vec<u8>) -> (r: Result<u64, Fault>)
        ensures
            read_value_spec(
                old(self)@.program,
                old(self)@.program_counter,
                mem@,
                old(self)@.regs,
                8,
            ) matches Ok(vp) ==> r == Ok::<u64, Fault>(vp.0 as u64) && final(self)@ == (ProcView {
                program_counter: vp.1,
                ..old(self)@
            }),
            read_value_spec(
                old(self)@.program,
                old(self)@.program_counter,
                mem@,
                old(self)@.regs,
                8,
            ) matches Err(f) ==> r == Err::<u64, Fault>(f) && same_but_pc(old(self)@, final(self)@),
    {
        let n = self.program.len();
        if self.program_counter >= n as u64 {
            return Err(Fault::ProgramCounterOutOfBounds);
        }
        let tag = self.program[self.program_counter as usize];
        self.program_counter = self.program_counter + 1;
        match Instr::from_byte(tag) {
            Some(Instr::type_int) => {
                let v = self.read_size_raw()?;
                Ok(v)
            },
            Some(Instr::type_ptr) => {
                let addr = self.read_size_raw()?;
                let v = mem_read_u64(mem, addr)?;
                Ok(v)
            },
            Some(Instr::type_ptr_off) => {
                let base = self.read_size_raw()?;
                let off = self.read_size_raw()?;
                match base.checked_add(off) {
                    Some(addr) => {
                        let v = mem_read_u64(mem, addr)?;
                        Ok(v)
                    },
                    None => Err(Fault::InvalidOperand),
                }
            },
            Some(Instr::type_idr_ptr) => {
                let a = self.read_size_raw()?;
                let b = mem_read_u64(mem, a)?;
                let v = mem_read_u64(mem, b)?;
                Ok(v)
            },
            Some(Instr::type_idr_ptr_off) => {
                let a = self.read_size_raw()?;
                let b = mem_read_u64(mem, a)?;
                let off = self.read_size_raw()?;
                match b.checked_add(off) {
                    Some(addr) => {
                        let v = mem_read_u64(mem, addr)?;
                        Ok(v)
                    },
                    None => Err(Fault::InvalidOperand),
                }
            },
            Some(Instr::type_reg) => {
                if self.program_counter >= n as u64 {
                    return Err(Fault::ProgramCounterOutOfBounds);
                }
                let idx = self.program[self.program_counter as usize];
                self.program_counter = self.program_counter + 1;
                if idx < 32 {
                    let c = self.regs.get_u64(idx as usize);
                    Ok(c)
                } else {
                    Err(Fault::InvalidOperand)
                }
            },
            _ => Err(Fault::InvalidOperand),
        }
    }

    /// Resolve one operand to a machine-width value.
    pub fn read_usize(&mut self, mem: &Vec<u8>) -> (r: Result<usize, Fault>)
        ensures
            read_value_spec(
                old(self)@.program,
                old(self)@.program_counter,
                mem@,
                old(self)@.regs,
                8,
            ) matches Ok(vp) ==> r == Ok::<usize, Fault>(vp.0 as usize) && final(self)@ == (ProcView {
                program_counter: vp.1,
                ..old(self)@
            }),
            read_value_spec(
                old(self)@.program,
                old(self)@.program_counter,
                mem@,
                old(self)@.regs,
                8,
            ) matches Err(f) ==> r == Err::<usize, Fault>(f) && same_but_pc(old(self)@, final(self)@),
    {
        let v = self.read_u64(mem)?;
        Ok(v as usize)
    }

    /// Resolve one operand to a storage location and store the 8-bit
    /// `value` there.  An Immediate operand is not a storage location.
    pub fn write_u8(&mut self, mem: &mut Vec<u8>, value: u8) -> (r: Result<(), Fault>)
        ensures
            write_value_spec(
                old(self)@.program,
                old(self)@.program_counter,
                old(mem)@,
                old(self)@.regs,
                1,
                value as u64,
            ) matches Ok(o) ==> r == Ok::<(), Fault>(()) && final(self)@ == (ProcView {
                program_counter: o.0,
                regs: o.2,
                ..old(self)@
            }) && final(mem)@ == o.1,
            write_value_spec(
                old(self)@.program,
                old(self)@.program_counter,
                old(mem)@,
                old(self)@.regs,
                1,
                value as u64,
            ) matches Err(f) ==> r == Err::<(), Fault>(f) && same_but_pc(old(self)@, final(self)@) && final(mem)@ == old(mem)@,
    {
        let n = self.program.len();
        if self.program_counter >= n as u64 {
            return Err(Fault::ProgramCounterOutOfBounds);
        }
        let tag = self.program[self.program_counter as usize];
        self.program_counter = self.program_counter + 1;
        match Instr::from_byte(tag) {
            Some(Instr::type_ptr) => {
                let addr = self.read_size_raw()?;
                mem_write_u8(mem, addr, value)
            },
            Some(Instr::type_ptr_off) => {
                let base = self.read_size_raw()?;
                let off = self.read_size_raw()?;
                match base.checked_add(off) {
                    Some(addr) => mem_write_u8(mem, addr, value),
                    None => Err(Fault::InvalidOperand),
                }
            },
            Some(Instr::type_idr_ptr) => {
                let a = self.read_size_raw()?;
                let b = mem_read_u64(mem, a)?;
                mem_write_u8(mem, b, value)
            },
            Some(Instr::type_idr_ptr_off) => {
                let a = self.read_size_raw()?;
                let b = mem_read_u64(mem, a)?;
                let off = self.read_size_raw()?;
                match b.checked_add(off) {
                    Some(addr) => mem_write_u8(mem, addr, value),
                    None => Err(Fault::InvalidOperand),
                }
            },
            Some(Instr::type_reg) => {
                if self.program_counter >= n as u64 {
                    return Err(Fault::ProgramCounterOutOfBounds);
                }
                let idx = self.program[self.program_counter as usize];
                self.program_counter = self.program_counter + 1;
                if idx < 32 {
                    self.regs.set_u8(idx as usize, value);
                    Ok(())
                } else {
                    Err(Fault::InvalidOperand)
                }
            },
            _ => Err(Fault::InvalidOperand),
        }
    }

    /// Resolve one operand to a storage location and store the 16-bit
    /// `value` there.  An Immediate operand is not a storage location.
    pub fn write_u16(&mut self, mem: &mut Vec<u8>, value: u16) -> (r: Result<(), Fault>)
        ensures
            write_value_spec(
                old(self)@.program,
                old(self)@.program_counter,
                old(mem)@,
                old(self)@.regs,
                2,
                value as u64,
            ) matches Ok(o) ==> r == Ok::<(), Fault>(()) && final(self)@ == (ProcView {
                program_counter: o.0,
                regs: o.2,
                ..old(self)@
            }) && final(mem)@ == o.1,
            write_value_spec(
                old(self)@.program,
                old(self)@.program_counter,
                old(mem)@,
                old(self)@.regs,
                2,
                value as u64,
            ) matches Err(f) ==> r == Err::<(), Fault>(f) && same_but_pc(old(self)@, final(self)@) && final(mem)@ == old(mem)@,
    {
        let n = self.program.len();
        if self.program_counter >= n as u64 {
            return Err(Fault::ProgramCounterOutOfBounds);
        }
        let tag = self.program[self.program_counter as usize];
        self.program_counter = self.program_counter + 1;
        match Instr::from_byte(tag) {
            Some(Instr::type_ptr) => {
                let addr = self.read_size_raw()?;
                mem_write_u16(mem, addr, value)
            },
            Some(Instr::type_ptr_off) => {
                let base = self.read_size_raw()?;
                let off = self.read_size_raw()?;
                match base.checked_add(off) {
                    Some(addr) => mem_write_u16(mem, addr, value),
                    None => Err(Fault::InvalidOperand),
                }
            },
            Some(Instr::type_idr_ptr) => {
                let a = self.read_size_raw()?;
                let b = mem_read_u64(mem, a)?;
                mem_write_u16(mem, b, value)
            },
            Some(Instr::type_idr_ptr_off) => {
                let a = self.read_size_raw()?;
                let b = mem_read_u64(mem, a)?;
                let off = self.read_size_raw()?;
                match b.checked_add(off) {
                    Some(addr) => mem_write_u16(mem, addr, value),
                    None => Err(Fault::InvalidOperand),
                }
            },
            Some(Instr::type_reg) => {
                if self.program_counter >= n as u64 {
                    return Err(Fault::ProgramCounterOutOfBounds);
                }
                let idx = self.program[self.program_counter as usize];
                self.program_counter = self.program_counter + 1;
                if idx < 32 {
                    self.regs.set_u16(idx as usize, value);
                    Ok(())
                } else {
                    Err(Fault::InvalidOperand)
                }
            },
            _ => Err(Fault::InvalidOperand),
        }
    }

    /// Resolve one operand to a storage location and store the 32-bit
    /// `value` there.  An Immediate operand is not a storage location.
    pub fn write_u32(&mut self, mem: &mut Vec<u8>, value: u32) -> (r: Result<(), Fault>)
        ensures
            write_value_spec(
                old(self)@.program,
                old(self)@.program_counter,
                old(mem)@,
                old(self)@.regs,
                4,
                value as u64,
            ) matches Ok(o) ==> r == Ok::<(), Fault>(()) && final(self)@ == (ProcView {
                program_counter: o.0,
                regs: o.2,
                ..old(self)@
            }) && final(mem)@ == o.1,
            write_value_spec(
                old(self)@.program,
                old(self)@.program_counter,
                old(mem)@,
                old(self)@.regs,
                4,
                value as u64,
            ) matches Err(f) ==> r == Err::<(), Fault>(f) && same_but_pc(old(self)@, final(self)@) && final(mem)@ == old(mem)@,
    {
        let n = self.program.len();
        if self.program_counter >= n as u64 {
            return Err(Fault::ProgramCounterOutOfBounds);
        }
        let tag = self.program[self.program_counter as usize];
        self.program_counter = self.program_counter + 1;
        match Instr::from_byte(tag) {
            Some(Instr::type_ptr) => {
                let addr = self.read_size_raw()?;
                mem_write_u32(mem, addr, value)
            },
            Some(Instr::type_ptr_off) => {
                let base = self.read_size_raw()?;
                let off = self.read_size_raw()?;
                match base.checked_add(off) {
                    Some(addr) => mem_write_u32(mem, addr, value),
                    None => Err(Fault::InvalidOperand),
                }
            },
            Some(Instr::type_idr_ptr) => {
                let a = self.read_size_raw()?;
                let b = mem_read_u64(mem, a)?;
                mem_write_u32(mem, b, value)
            },
            Some(Instr::type_idr_ptr_off) => {
                let a = self.read_size_raw()?;
                let b = mem_read_u64(mem, a)?;
                let off = self.read_size_raw()?;
                match b.checked_add(off) {
                    Some(addr) => mem_write_u32(mem, addr, value),
                    None => Err(Fault::InvalidOperand),
                }
            },
            Some(Instr::type_reg) => {
                if self.program_counter >= n as u64 {
                    return Err(Fault::ProgramCounterOutOfBounds);
                }
                let idx = self.program[self.program_counter as usize];
                self.program_counter = self.program_counter + 1;
                if idx < 32 {
                    self.regs.set_u32(idx as usize, value);
                    Ok(())
                } else {
                    Err(Fault::InvalidOperand)
                }
            },
            _ => Err(Fault::InvalidOperand),
        }
    }

    /// Resolve one operand to a storage location and store the 64-bit
    /// `value` there.  An Immediate operand is not a storage location.
    pub fn write_u64(&mut self, mem: &mut Vec<u8>, value: u64) -> (r: Result<(), Fault>)
        ensures
            write_value_spec(
                old(self)@.program,
                old(self)@.program_counter,
                old(mem)@,
                old(self)@.regs,
                8,
                value as u64,
            ) matches Ok(o) ==> r == Ok::<(), Fault>(()) && final(self)@ == (ProcView {
                program_counter: o.0,
                regs: o.2,
                ..old(self)@
            }) && final(mem)@ == o.1,
            write_value_spec(
                old(self)@.program,
                old(self)@.program_counter,
                old(mem)@,
                old(self)@.regs,
                8,
                value as u64,
            ) matches Err(f) ==> r == Err::<(), Fault>(f) && same_but_pc(old(self)@, final(self)@) && final(mem)@ == old(mem)@,
    {
        let n = self.program.len();
        if self.program_counter >= n as u64 {
            return Err(Fault::ProgramCounterOutOfBounds);
        }
        let tag = self.program[self.program_counter as usize];
        self.program_counter = self.program_counter + 1;
        match Instr::from_byte(tag) {
            Some(Instr::type_ptr) => {
                let addr = self.read_size_raw()?;
                mem_write_u64(mem, addr, value)
            },
            Some(Instr::type_ptr_off) => {
                let base = self.read_size_raw()?;
                let off = self.read_size_raw()?;
                match base.checked_add(off) {
                    Some(addr) => mem_write_u64(mem, addr, value),
                    None => Err(Fault::InvalidOperand),
                }
            },
            Some(Instr::type_idr_ptr) => {
                let a = self.read_size_raw()?;
                let b = mem_read_u64(mem, a)?;
                mem_write_u64(mem, b, value)
            },
            Some(Instr::type_idr_ptr_off) => {
                let a = self.read_size_raw()?;
                let b = mem_read_u64(mem, a)?;
                let off = self.read_size_raw()?;
                match b.checked_add(off) {
                    Some(addr) => mem_write_u64(mem, addr, value),
                    None => Err(Fault::InvalidOperand),
                }
            },
            Some(Instr::type_reg) => {
                if self.program_counter >= n as u64 {
                    return Err(Fault::ProgramCounterOutOfBounds);
                }
                let idx = self.program[self.program_counter as usize];
                self.program_counter = self.program_counter + 1;
                if idx < 32 {
                    self.regs.set_u64(idx as usize, value);
                    Ok(())
                } else {
                    Err(Fault::InvalidOperand)
                }
            },
            _ => Err(Fault::InvalidOperand),
        }
    }

    /// `jmp`: decode a 64-bit target operand and set the program counter to
    /// it.
    pub fn jmp(&mut self, mem: &Vec<u8>) -> (r: Result<(), Fault>)
        ensures
            read_value_spec(
                old(self)@.program,
                old(self)@.program_counter,
                mem@,
                old(self)@.regs,
                8,
            ) matches Ok(vp) ==> r == Ok::<(), Fault>(()) && final(self)@ == (ProcView {
                program_counter: vp.0,
                ..old(self)@
            }),
            read_value_spec(
                old(self)@.program,
                old(self)@.program_counter,
                mem@,
                old(self)@.regs,
                8,
            ) matches Err(f) ==> r == Err::<(), Fault>(f) && same_but_pc(old(self)@, final(self)@),
    {
        let index = self.read_u64(mem)?;
        self.program_counter = index;
        Ok(())
    }

    /// `if_jmp`: pop one condition byte; if it is zero, decode and discard
    /// the target operand so the program counter lands exactly past it; if
    /// it is nonzero, jump to the decoded target.
    pub fn if_jmp(&mut self, mem: &Vec<u8>) -> (r: Result<(), Fault>)
        ensures
            old(self)@.stack.len() == 0 ==> r == Err::<(), Fault>(Fault::StackUnderflow) && final(self)@ == old(
                self,
            )@,
            old(self)@.stack.len() >= 1 ==> (match read_value_spec(
                old(self)@.program,
                old(self)@.program_counter,
                mem@,
                old(self)@.regs,
                8,
            ) {
                Ok(vp) => r == Ok::<(), Fault>(()) && final(self)@ == (ProcView {
                    program_counter: (if top_u8(old(self)@.stack) != 0 {
                        vp.0
                    } else {
                        vp.1
                    }),
                    stack: old(self)@.stack.drop_last(),
                    ..old(self)@
                }),
                Err(f) => r == Err::<(), Fault>(f) && final(self)@.stack == old(self)@.stack.drop_last()
                    && same_but_pc_stack(old(self)@, final(self)@),
            }),
    {
        if self.stack.len() == 0 {
            return Err(Fault::StackUnderflow);
        }
        let value = self.pop_u8();
        proof {
            assert(self.stack@ =~= old(self).stack@.drop_last());
        }
        if value == 0 {
            self.read_u64(mem)?;
            Ok(())
        } else {
            let index = self.read_u64(mem)?;
            self.program_counter = index;
            Ok(())
        }
    }

    /// `call`: decode a 64-bit target, push the program counter that
    /// follows the operand onto the call stack, and jump to the target.
    /// The call stack grows by exactly one entry.
    pub fn call(&mut self, mem: &Vec<u8>) -> (r: Result<(), Fault>)
        ensures
            read_value_spec(
                old(self)@.program,
                old(self)@.program_counter,
                mem@,
                old(self)@.regs,
                8,
            ) matches Ok(vp) ==> r == Ok::<(), Fault>(()) && final(self)@ == (ProcView {
                program_counter: vp.0,
                function_stack: old(self)@.function_stack.push(vp.1),
                ..old(self)@
            }),
            read_value_spec(
                old(self)@.program,
                old(self)@.program_counter,
                mem@,
                old(self)@.regs,
                8,
            ) matches Err(f) ==> r == Err::<(), Fault>(f) && same_but_pc(old(self)@, final(self)@),
    {
        let index = self.read_u64(mem)?;
        self.function_stack.push(self.program_counter);
        self.program_counter = index;
        Ok(())
    }

    /// `load`: pop a 64-bit arena address, dereference 1 byte there,
    /// and push the value.
    pub fn load_u8(&mut self, mem: &Vec<u8>) -> (r: Result<(), Fault>)
        ensures
            old(self)@.stack.len() < 8 ==> r == Err::<(), Fault>(Fault::StackUnderflow) && final(self)@ == old(
                self,
            )@,
            old(self)@.stack.len() >= 8 ==> (match mem_read_spec(
                mem@,
                top_u64(old(self)@.stack),
                1,
            ) {
                Ok(v) => r == Ok::<(), Fault>(()) && final(self)@ == (ProcView {
                    stack: old(self)@.stack.subrange(0, old(self)@.stack.len() - 8) + be_bytes_n(v, 1),
                    ..old(self)@
                }),
                Err(f) => r == Err::<(), Fault>(f) && final(self)@ == (ProcView {
                    stack: old(self)@.stack.subrange(0, old(self)@.stack.len() - 8),
                    ..old(self)@
                }),
            }),
    {
        if self.stack.len() < 8 {
            return Err(Fault::StackUnderflow);
        }
        let addr = self.pop_u64();
        let v = mem_read_u8(mem, addr)?;
        self.push_u8(v);
        proof {
            assert(self.stack@ =~= old(self)@.stack.subrange(0, old(self)@.stack.len() - 8)
                + be_bytes_n(v as u64, 1));
        }
        Ok(())
    }

    /// `load`: pop a 64-bit arena address, dereference 2 bytes there,
    /// and push the value.
    pub fn load_u16(&mut self, mem: &Vec<u8>) -> (r: Result<(), Fault>)
        ensures
            old(self)@.stack.len() < 8 ==> r == Err::<(), Fault>(Fault::StackUnderflow) && final(self)@ == old(
                self,
            )@,
            old(self)@.stack.len() >= 8 ==> (match mem_read_spec(
                mem@,
                top_u64(old(self)@.stack),
                2,
            ) {
                Ok(v) => r == Ok::<(), Fault>(()) && final(self)@ == (ProcView {
                    stack: old(self)@.stack.subrange(0, old(self)@.stack.len() - 8) + be_bytes_n(v, 2),
                    ..old(self)@
                }),
                Err(f) => r == Err::<(), Fault>(f) && final(self)@ == (ProcView {
                    stack: old(self)@.stack.subrange(0, old(self)@.stack.len() - 8),
                    ..old(self)@
                }),
            }),
    {
        if self.stack.len() < 8 {
            return Err(Fault::StackUnderflow);
        }
        let addr = self.pop_u64();
        let v = mem_read_u16(mem, addr)?;
        self.push_u16(v);
        proof {
            assert(self.stack@ =~= old(self)@.stack.subrange(0, old(self)@.stack.len() - 8)
                + be_bytes_n(v as u64, 2));
        }
        Ok(())
    }

    /// `load`: pop a 64-bit arena address, dereference 4 bytes there,
    /// and push the value.
    pub fn load_u32(&mut self, mem: &Vec<u8>) -> (r: Result<(), Fault>)
        ensures
            old(self)@.stack.len() < 8 ==> r == Err::<(), Fault>(Fault::StackUnderflow) && final(self)@ == old(
                self,
            )@,
            old(self)@.stack.len() >= 8 ==> (match mem_read_spec(
                mem@,
                top_u64(old(self)@.stack),
                4,
            ) {
                Ok(v) => r == Ok::<(), Fault>(()) && final(self)@ == (ProcView {
                    stack: old(self)@.stack.subrange(0, old(self)@.stack.len() - 8) + be_bytes_n(v, 4),
                    ..old(self)@
                }),
                Err(f) => r == Err::<(), Fault>(f) && final(self)@ == (ProcView {
                    stack: old(self)@.stack.subrange(0, old(self)@.stack.len() - 8),
                    ..old(self)@
                }),
            }),
    {
        if self.stack.len() < 8 {
            return Err(Fault::StackUnderflow);
        }
        let addr = self.pop_u64();
        let v = mem_read_u32(mem, addr)?;
        self.push_u32(v);
        proof {
            assert(self.stack@ =~= old(self)@.stack.subrange(0, old(self)@.stack.len() - 8)
                + be_bytes_n(v as u64, 4));
        }
        Ok(())
    }

    /// `load`: pop a 64-bit arena address, dereference 8 bytes there,
    /// and push the value.
    pub fn load_u64(&mut self, mem: &Vec<u8>) -> (r: Result<(), Fault>)
        ensures
            old(self)@.stack.len() < 8 ==> r == Err::<(), Fault>(Fault::StackUnderflow) && final(self)@ == old(
                self,
            )@,
            old(self)@.stack.len() >= 8 ==> (match mem_read_spec(
                mem@,
                top_u64(old(self)@.stack),
                8,
            ) {
                Ok(v) => r == Ok::<(), Fault>(()) && final(self)@ == (ProcView {
                    stack: old(self)@.stack.subrange(0, old(self)@.stack.len() - 8) + be_bytes_n(v, 8),
                    ..old(self)@
                }),
                Err(f) => r == Err::<(), Fault>(f) && final(self)@ == (ProcView {
                    stack: old(self)@.stack.subrange(0, old(self)@.stack.len() - 8),
                    ..old(self)@
                }),
            }),
    {
        if self.stack.len() < 8 {
            return Err(Fault::StackUnderflow);
        }
        let addr = self.pop_u64();
        let v = mem_read_u64(mem, addr)?;
        self.push_u64(v);
        proof {
            assert(self.stack@ =~= old(self)@.stack.subrange(0, old(self)@.stack.len() - 8)
                + be_bytes_n(v as u64, 8));
        }
        Ok(())
    }

    /// `save`: pop a 64-bit arena address, then a 8-bit value, and store
    /// the value at the address.
    pub fn save_u8(&mut self, mem: &mut Vec<u8>) -> (r: Result<(), Fault>)
        ensures
            old(self)@.stack.len() < 9 ==> r == Err::<(), Fault>(Fault::StackUnderflow) && final(self)@
                == old(self)@ && final(mem)@ == old(mem)@,
            old(self)@.stack.len() >= 9 ==> (match mem_write_spec(
                old(mem)@,
                top_u64(old(self)@.stack),
                1,
                top_u8(old(self)@.stack.subrange(0, old(self)@.stack.len() - 8)) as u64,
            ) {
                Ok(m2) => r == Ok::<(), Fault>(()) && final(mem)@ == m2 && final(self)@ == (ProcView {
                    stack: old(self)@.stack.subrange(0, old(self)@.stack.len() - 9),
                    ..old(self)@
                }),
                Err(f) => r == Err::<(), Fault>(f) && final(mem)@ == old(mem)@ && final(self)@ == (ProcView {
                    stack: old(self)@.stack.subrange(0, old(self)@.stack.len() - 9),
                    ..old(self)@
                }),
            }),
    {
        if self.stack.len() < 9 {
            return Err(Fault::StackUnderflow);
        }
        let address = self.pop_u64();
        let value = self.pop_u8();
        proof {
            assert(self.stack@ =~= old(self)@.stack.subrange(
                0,
                old(self)@.stack.len() - 9,
            ));
        }
        mem_write_u8(mem, address, value)
    }

    /// `save`: pop a 64-bit arena address, then a 16-bit value, and store
    /// the value at the address.
    pub fn save_u16(&mut self, mem: &mut Vec<u8>) -> (r: Result<(), Fault>)
        ensures
            old(self)@.stack.len() < 10 ==> r == Err::<(), Fault>(Fault::StackUnderflow) && final(self)@
                == old(self)@ && final(mem)@ == old(mem)@,
            old(self)@.stack.len() >= 10 ==> (match mem_write_spec(
                old(mem)@,
                top_u64(old(self)@.stack),
                2,
                top_u16(old(self)@.stack.subrange(0, old(self)@.stack.len() - 8)) as u64,
            ) {
                Ok(m2) => r == Ok::<(), Fault>(()) && final(mem)@ == m2 && final(self)@ == (ProcView {
                    stack: old(self)@.stack.subrange(0, old(self)@.stack.len() - 10),
                    ..old(self)@
                }),
                Err(f) => r == Err::<(), Fault>(f) && final(mem)@ == old(mem)@ && final(self)@ == (ProcView {
                    stack: old(self)@.stack.subrange(0, old(self)@.stack.len() - 10),
                    ..old(self)@
                }),
            }),
    {
        if self.stack.len() < 10 {
            return Err(Fault::StackUnderflow);
        }
        let address = self.pop_u64();
        let value = self.pop_u16();
        proof {
            assert(self.stack@ =~= old(self)@.stack.subrange(
                0,
                old(self)@.stack.len() - 10,
            ));
        }
        mem_write_u16(mem, address, value)
    }

    /// `save`: pop a 64-bit arena address, then a 32-bit value, and store
    /// the value at the address.
    pub fn save_u32(&mut self, mem: &mut Vec<u8>) -> (r: Result<(), Fault>)
        ensures
            old(self)@.stack.len() < 12 ==> r == Err::<(), Fault>(Fault::StackUnderflow) && final(self)@
                == old(self)@ && final(mem)@ == old(mem)@,
            old(self)@.stack.len() >= 12 ==> (match mem_write_spec(
                old(mem)@,
                top_u64(old(self)@.stack),
                4,
                top_u32(old(self)@.stack.subrange(0, old(self)@.stack.len() - 8)) as u64,
            ) {
                Ok(m2) => r == Ok::<(), Fault>(()) && final(mem)@ == m2 && final(self)@ == (ProcView {
                    stack: old(self)@.stack.subrange(0, old(self)@.stack.len() - 12),
                    ..old(self)@
                }),
                Err(f) => r == Err::<(), Fault>(f) && final(mem)@ == old(mem)@ && final(self)@ == (ProcView {
                    stack: old(self)@.stack.subrange(0, old(self)@.stack.len() - 12),
                    ..old(self)@
                }),
            }),
    {
        if self.stack.len() < 12 {
            return Err(Fault::StackUnderflow);
        }
        let address = self.pop_u64();
        let value = self.pop_u32();
        proof {
            assert(self.stack@ =~= old(self)@.stack.subrange(
                0,
                old(self)@.stack.len() - 12,
            ));
        }
        mem_write_u32(mem, address, value)
    }

    /// `save`: pop a 64-bit arena address, then a 64-bit value, and store
    /// the value at the address.
    pub fn save_u64(&mut self, mem: &mut Vec<u8>) -> (r: Result<(), Fault>)
        ensures
            old(self)@.stack.len() < 16 ==> r == Err::<(), Fault>(Fault::StackUnderflow) && final(self)@
                == old(self)@ && final(mem)@ == old(mem)@,
            old(self)@.stack.len() >= 16 ==> (match mem_write_spec(
                old(mem)@,
                top_u64(old(self)@.stack),
                8,
                top_u64(old(self)@.stack.subrange(0, old(self)@.stack.len() - 8)) as u64,
            ) {
                Ok(m2) => r == Ok::<(), Fault>(()) && final(mem)@ == m2 && final(self)@ == (ProcView {
                    stack: old(self)@.stack.subrange(0, old(self)@.stack.len() - 16),
                    ..old(self)@
                }),
                Err(f) => r == Err::<(), Fault>(f) && final(mem)@ == old(mem)@ && final(self)@ == (ProcView {
                    stack: old(self)@.stack.subrange(0, old(self)@.stack.len() - 16),
                    ..old(self)@
                }),
            }),
    {
        if self.stack.len() < 16 {
            return Err(Fault::StackUnderflow);
        }
        let address = self.pop_u64();
        let value = self.pop_u64();
        proof {
            assert(self.stack@ =~= old(self)@.stack.subrange(
                0,
                old(self)@.stack.len() - 16,
            ));
        }
        mem_write_u64(mem, address, value)
    }
}

} // verus!
