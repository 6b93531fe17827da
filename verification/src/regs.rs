//! The register file: 32 width-partitioned storage cells, flat-indexed.
//!
//! Indices 0–7 address 8-bit cells, 8–15 address 16-bit cells, 16–23 address
//! 32-bit cells, and 24–31 address 64-bit cells.  Every access goes through
//! one flat index regardless of the width the instruction asked for: a read
//! from a narrower bank zero-extends, a read from a wider bank truncates,
//! and a write coerces the value to the width of the bank the same way.

use vstd::prelude::*;

verus! {

/// The register file of one process: four banks of eight cells.
#[derive(Debug, Eq, PartialEq)]
pub struct Regs {
    pub bank8: [u8; 8],
    pub bank16: [u16; 8],
    pub bank32: [u32; 8],
    pub bank64: [u64; 8],
}

/// Names for the 32 flat register indices, bank by bank.
#[allow(non_camel_case_types)]
#[derive(Debug, Clone, Copy, Eq, PartialEq, Structural)]
pub enum RegsId {
    r8_0,
    r8_1,
    r8_2,
    r8_3,
    r8_4,
    r8_5,
    r8_6,
    r8_7,
    r16_0,
    r16_1,
    r16_2,
    r16_3,
    r16_4,
    r16_5,
    r16_6,
    r16_7,
    r32_0,
    r32_1,
    r32_2,
    r32_3,
    r32_4,
    r32_5,
    r32_6,
    r32_7,
    r64_0,
    r64_1,
    r64_2,
    r64_3,
    r64_4,
    r64_5,
    r64_6,
    r64_7,
}

impl View for Regs {
    type V = Seq<u64>;

    /// A register file is viewed as the sequence of its 32 cell values,
    /// each zero-extended to 64 bits.
    open spec fn view(&self) -> Seq<u64> {
        Seq::new(32, |i: int| self.cell(i))
    }
}

impl Regs {
    /// The value stored at flat index `i`, zero-extended to 64 bits.
    ///
    /// This is the canonical reading of a cell; the width-specific getters
    /// truncate it to their width.
    pub open spec fn cell(self, i: int) -> u64
        recommends
            0 <= i < 32,
    {
        if i < 8 {
            self.bank8@[i] as u64
        } else if i < 16 {
            self.bank16@[i - 8] as u64
        } else if i < 24 {
            self.bank32@[i - 16] as u64
        } else {
            self.bank64@[i - 24] as u64
        }
    }

    /// The width, in bits, of the bank that flat index `i` addresses.
    pub open spec fn bank_bits(i: int) -> int {
        if i < 8 {
            8
        } else if i < 16 {
            16
        } else if i < 24 {
            32
        } else {
            64
        }
    }

    /// A 64-bit value truncated to the low `bits` bits.
    pub open spec fn trunc_bits(v: u64, bits: int) -> u64 {
        if bits == 8 {
            (v % 0x100) as u64
        } else if bits == 16 {
            (v % 0x1_0000) as u64
        } else if bits == 32 {
            (v % 0x1_0000_0000) as u64
        } else {
            v
        }
    }

    /// What a write of `v` (zero-extended to 64 bits) at flat index `i`
    /// leaves in the cell: the value truncated to the width of the bank.
    pub open spec fn written_cell(i: int, v: u64) -> u64 {
        Self::trunc_bits(v, Self::bank_bits(i))
    }

    /// A fresh register file with every cell zero.
    pub fn new() -> (r: Regs)
        ensures
            r@ == Seq::new(32, |i: int| 0u64),
    {
        let r = Regs { bank8: [0; 8], bank16: [0; 8], bank32: [0; 8], bank64: [0; 8] };
        proof {
            assert(r@ =~= Seq::new(32, |i: int| 0u64));
        }
        r
    }

    /// Read flat index `i`, coerced to 8 bits.
    pub fn get_u8(&self, i: usize) -> (r: u8)
        requires
            i < 32,
        ensures
            r == self@[i as int] as u8,
    {
        if i < 8 {
            self.bank8[i]
        } else if i < 16 {
            self.bank16[i - 8] as u8
        } else if i < 24 {
            self.bank32[i - 16] as u8
        } else {
            self.bank64[i - 24] as u8
        }
    }

    /// Read flat index `i`, coerced to 16 bits.
    pub fn get_u16(&self, i: usize) -> (r: u16)
        requires
            i < 32,
        ensures
            r == self@[i as int] as u16,
    {
        if i < 8 {
            self.bank8[i] as u16
        } else if i < 16 {
            self.bank16[i - 8]
        } else if i < 24 {
            self.bank32[i - 16] as u16
        } else {
            self.bank64[i - 24] as u16
        }
    }

    /// Read flat index `i`, coerced to 32 bits.
    pub fn get_u32(&self, i: usize) -> (r: u32)
        requires
            i < 32,
        ensures
            r == self@[i as int] as u32,
    {
        if i < 8 {
            self.bank8[i] as u32
        } else if i < 16 {
            self.bank16[i - 8] as u32
        } else if i < 24 {
            self.bank32[i - 16]
        } else {
            self.bank64[i - 24] as u32
        }
    }

    /// Read flat index `i`, coerced to 64 bits.
    pub fn get_u64(&self, i: usize) -> (r: u64)
        requires
            i < 32,
        ensures
            r == self@[i as int],
    {
        if i < 8 {
            self.bank8[i] as u64
        } else if i < 16 {
            self.bank16[i - 8] as u64
        } else if i < 24 {
            self.bank32[i - 16] as u64
        } else {
            self.bank64[i - 24]
        }
    }

    /// Write an 8-bit value at flat index `i`, zero-extended to the bank's
    /// width.
    pub fn set_u8(&mut self, i: usize, v: u8)
        requires
            i < 32,
        ensures
            final(self)@ == old(self)@.update(i as int, Regs::written_cell(i as int, v as u64)),
    {
        if i < 8 {
            self.bank8[i] = v;
        } else if i < 16 {
            self.bank16[i - 8] = v as u16;
        } else if i < 24 {
            self.bank32[i - 16] = v as u32;
        } else {
            self.bank64[i - 24] = v as u64;
        }
        proof {
            assert(self@ =~= old(self)@.update(i as int, Regs::written_cell(i as int, v as u64)));
        }
    }

    /// Write a 16-bit value at flat index `i`, coerced to the bank's width.
    pub fn set_u16(&mut self, i: usize, v: u16)
        requires
            i < 32,
        ensures
            final(self)@ == old(self)@.update(i as int, Regs::written_cell(i as int, v as u64)),
    {
        if i < 8 {
            self.bank8[i] = (v % 0x100) as u8;
        } else if i < 16 {
            self.bank16[i - 8] = v;
        } else if i < 24 {
            self.bank32[i - 16] = v as u32;
        } else {
            self.bank64[i - 24] = v as u64;
        }
        proof {
            assert(self@ =~= old(self)@.update(i as int, Regs::written_cell(i as int, v as u64)));
        }
    }

    /// Write a 32-bit value at flat index `i`, coerced to the bank's width.
    pub fn set_u32(&mut self, i: usize, v: u32)
        requires
            i < 32,
        ensures
            final(self)@ == old(self)@.update(i as int, Regs::written_cell(i as int, v as u64)),
    {
        if i < 8 {
            self.bank8[i] = (v % 0x100) as u8;
        } else if i < 16 {
            self.bank16[i - 8] = (v % 0x1_0000) as u16;
        } else if i < 24 {
            self.bank32[i - 16] = v;
        } else {
            self.bank64[i - 24] = v as u64;
        }
        proof {
            assert(self@ =~= old(self)@.update(i as int, Regs::written_cell(i as int, v as u64)));
        }
    }

    /// Write a 64-bit value at flat index `i`, coerced to the bank's width.
    pub fn set_u64(&mut self, i: usize, v: u64)
        requires
            i < 32,
        ensures
            final(self)@ == old(self)@.update(i as int, Regs::written_cell(i as int, v)),
    {
        if i < 8 {
            self.bank8[i] = (v % 0x100) as u8;
        } else if i < 16 {
            self.bank16[i - 8] = (v % 0x1_0000) as u16;
        } else if i < 24 {
            self.bank32[i - 16] = (v % 0x1_0000_0000) as u32;
        } else {
            self.bank64[i - 24] = v;
        }
        proof {
            assert(self@ =~= old(self)@.update(i as int, Regs::written_cell(i as int, v)));
        }
    }
}

} // verus!
