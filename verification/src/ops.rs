//! The arithmetic, bitwise, shift and comparison opcode primitives.
//!
//! Every binary operation pops the right operand (pushed last), then the
//! left operand, computes, and pushes the result; comparisons push a single
//! byte, `1` for true and `0` for false.  Unary operations pop one value and
//! push one result.  All fixed-width arithmetic wraps silently on overflow;
//! shifts take their amount modulo the operand width; signed division and
//! remainder truncate toward zero, the one overflowing quotient wrapping
//! back to the smallest value.  Division or remainder by zero is excluded by
//! precondition; the dispatch loop tests the divisor and reports the fault.
//!
//! The `_u` and `_i` variants of an operation work on the same stack bytes;
//! they differ in whether those bytes are read as unsigned or as two's
//! complement values.  For wrapping addition, subtraction and multiplication
//! the resulting bytes coincide; the contracts state each variant in its own
//! signedness.

use vstd::prelude::*;

use crate::bytes::be_bytes_u16;
use crate::bytes::be_bytes_u32;
use crate::bytes::be_bytes_u64;
use crate::numeric::sdiv_i8;
use crate::numeric::sdiv_i16;
use crate::numeric::sdiv_i32;
use crate::numeric::sdiv_i64;
use crate::numeric::srem_i8;
use crate::numeric::srem_i16;
use crate::numeric::srem_i32;
use crate::numeric::srem_i64;
use crate::numeric::lemma_checked_div_i8;
use crate::numeric::lemma_checked_div_i16;
use crate::numeric::lemma_checked_div_i32;
use crate::numeric::lemma_checked_div_i64;
use crate::numeric::lemma_checked_rem_i8;
use crate::numeric::lemma_checked_rem_i16;
use crate::numeric::lemma_checked_rem_i32;
use crate::numeric::lemma_checked_rem_i64;
use crate::process::Process;
use crate::process::ProcView;
use crate::process::top_u8;
use crate::process::top_u16;
use crate::process::top_u32;
use crate::process::top_u64;
use crate::process::second_u8;
use crate::process::second_u16;
use crate::process::second_u32;
use crate::process::second_u64;
use vstd::wrapping::u8_specs;
use vstd::wrapping::u16_specs;
use vstd::wrapping::u32_specs;
use vstd::wrapping::u64_specs;
use vstd::wrapping::i8_specs;
use vstd::wrapping::i16_specs;
use vstd::wrapping::i32_specs;
use vstd::wrapping::i64_specs;

verus! {

impl Process {

    /// Unsigned wrapping addition: pop two 8-bit values, push their sum.
    pub fn add_u8(&mut self)
        requires
            old(self).stack@.len() >= 2,
        ensures
            final(self)@ == (ProcView {
                stack: old(self).stack@.subrange(0, old(self).stack@.len() - 2)
                    + seq![u8_specs::wrapping_add(second_u8(old(self).stack@), top_u8(old(self).stack@))],
                ..old(self)@
            }),
    {
        let b = self.pop_u8();
        let a = self.pop_u8();
        let r = a.wrapping_add(b);
        self.push_u8(r);
        proof {
            assert(self.stack@ =~= old(self).stack@.subrange(
                0,
                old(self).stack@.len() - 2,
            ) + seq![u8_specs::wrapping_add(second_u8(old(self).stack@), top_u8(old(self).stack@))]);
        }
    }

    /// Signed wrapping addition: pop two 8-bit values, push their sum.
    pub fn add_i8(&mut self)
        requires
            old(self).stack@.len() >= 2,
        ensures
            final(self)@ == (ProcView {
                stack: old(self).stack@.subrange(0, old(self).stack@.len() - 2)
                    + seq![i8_specs::wrapping_add(second_u8(old(self).stack@) as i8, top_u8(old(self).stack@) as i8) as u8],
                ..old(self)@
            }),
    {
        let b = self.pop_u8() as i8;
        let a = self.pop_u8() as i8;
        let r = a.wrapping_add(b);
        self.push_u8(r as u8);
        proof {
            assert(self.stack@ =~= old(self).stack@.subrange(
                0,
                old(self).stack@.len() - 2,
            ) + seq![i8_specs::wrapping_add(second_u8(old(self).stack@) as i8, top_u8(old(self).stack@) as i8) as u8]);
        }
    }

    /// Unsigned wrapping addition: pop two 16-bit values, push their sum.
    pub fn add_u16(&mut self)
        requires
            old(self).stack@.len() >= 4,
        ensures
            final(self)@ == (ProcView {
                stack: old(self).stack@.subrange(0, old(self).stack@.len() - 4)
                    + be_bytes_u16(u16_specs::wrapping_add(second_u16(old(self).stack@), top_u16(old(self).stack@))),
                ..old(self)@
            }),
    {
        let b = self.pop_u16();
        let a = self.pop_u16();
        let r = a.wrapping_add(b);
        self.push_u16(r);
        proof {
            assert(self.stack@ =~= old(self).stack@.subrange(
                0,
                old(self).stack@.len() - 4,
            ) + be_bytes_u16(u16_specs::wrapping_add(second_u16(old(self).stack@), top_u16(old(self).stack@))));
        }
    }

    /// Signed wrapping addition: pop two 16-bit values, push their sum.
    pub fn add_i16(&mut self)
        requires
            old(self).stack@.len() >= 4,
        ensures
            final(self)@ == (ProcView {
                stack: old(self).stack@.subrange(0, old(self).stack@.len() - 4)
                    + be_bytes_u16(i16_specs::wrapping_add(second_u16(old(self).stack@) as i16, top_u16(old(self).stack@) as i16) as u16),
                ..old(self)@
            }),
    {
        let b = self.pop_u16() as i16;
        let a = self.pop_u16() as i16;
        let r = a.wrapping_add(b);
        self.push_u16(r as u16);
        proof {
            assert(self.stack@ =~= old(self).stack@.subrange(
                0,
                old(self).stack@.len() - 4,
            ) + be_bytes_u16(i16_specs::wrapping_add(second_u16(old(self).stack@) as i16, top_u16(old(self).stack@) as i16) as u16));
        }
    }

    /// Unsigned wrapping addition: pop two 32-bit values, push their sum.
    pub fn add_u32(&mut self)
        requires
            old(self).stack@.len() >= 8,
        ensures
            final(self)@ == (ProcView {
                stack: old(self).stack@.subrange(0, old(self).stack@.len() - 8)
                    + be_bytes_u32(u32_specs::wrapping_add(second_u32(old(self).stack@), top_u32(old(self).stack@))),
                ..old(self)@
            }),
    {
        let b = self.pop_u32();
        let a = self.pop_u32();
        let r = a.wrapping_add(b);
        self.push_u32(r);
        proof {
            assert(self.stack@ =~= old(self).stack@.subrange(
                0,
                old(self).stack@.len() - 8,
            ) + be_bytes_u32(u32_specs::wrapping_add(second_u32(old(self).stack@), top_u32(old(self).stack@))));
        }
    }

    /// Signed wrapping addition: pop two 32-bit values, push their sum.
    pub fn add_i32(&mut self)
        requires
            old(self).stack@.len() >= 8,
        ensures
            final(self)@ == (ProcView {
                stack: old(self).stack@.subrange(0, old(self).stack@.len() - 8)
                    + be_bytes_u32(i32_specs::wrapping_add(second_u32(old(self).stack@) as i32, top_u32(old(self).stack@) as i32) as u32),
                ..old(self)@
            }),
    {
        let b = self.pop_u32() as i32;
        let a = self.pop_u32() as i32;
        let r = a.wrapping_add(b);
        self.push_u32(r as u32);
        proof {
            assert(self.stack@ =~= old(self).stack@.subrange(
                0,
                old(self).stack@.len() - 8,
            ) + be_bytes_u32(i32_specs::wrapping_add(second_u32(old(self).stack@) as i32, top_u32(old(self).stack@) as i32) as u32));
        }
    }

    /// Unsigned wrapping addition: pop two 64-bit values, push their sum.
    pub fn add_u64(&mut self)
        requires
            old(self).stack@.len() >= 16,
        ensures
            final(self)@ == (ProcView {
                stack: old(self).stack@.subrange(0, old(self).stack@.len() - 16)
                    + be_bytes_u64(u64_specs::wrapping_add(second_u64(old(self).stack@), top_u64(old(self).stack@))),
                ..old(self)@
            }),
    {
        let b = self.pop_u64();
        let a = self.pop_u64();
        let r = a.wrapping_add(b);
        self.push_u64(r);
        proof {
            assert(self.stack@ =~= old(self).stack@.subrange(
                0,
                old(self).stack@.len() - 16,
            ) + be_bytes_u64(u64_specs::wrapping_add(second_u64(old(self).stack@), top_u64(old(self).stack@))));
        }
    }

    /// Signed wrapping addition: pop two 64-bit values, push their sum.
    pub fn add_i64(&mut self)
        requires
            old(self).stack@.len() >= 16,
        ensures
            final(self)@ == (ProcView {
                stack: old(self).stack@.subrange(0, old(self).stack@.len() - 16)
                    + be_bytes_u64(i64_specs::wrapping_add(second_u64(old(self).stack@) as i64, top_u64(old(self).stack@) as i64) as u64),
                ..old(self)@
            }),
    {
        let b = self.pop_u64() as i64;
        let a = self.pop_u64() as i64;
        let r = a.wrapping_add(b);
        self.push_u64(r as u64);
        proof {
            assert(self.stack@ =~= old(self).stack@.subrange(
                0,
                old(self).stack@.len() - 16,
            ) + be_bytes_u64(i64_specs::wrapping_add(second_u64(old(self).stack@) as i64, top_u64(old(self).stack@) as i64) as u64));
        }
    }

    /// Unsigned wrapping subtraction: pop two 8-bit values, push their difference.
    pub fn sub_u8(&mut self)
        requires
            old(self).stack@.len() >= 2,
        ensures
            final(self)@ == (ProcView {
                stack: old(self).stack@.subrange(0, old(self).stack@.len() - 2)
                    + seq![u8_specs::wrapping_sub(second_u8(old(self).stack@), top_u8(old(self).stack@))],
                ..old(self)@
            }),
    {
        let b = self.pop_u8();
        let a = self.pop_u8();
        let r = a.wrapping_sub(b);
        self.push_u8(r);
        proof {
            assert(self.stack@ =~= old(self).stack@.subrange(
                0,
                old(self).stack@.len() - 2,
            ) + seq![u8_specs::wrapping_sub(second_u8(old(self).stack@), top_u8(old(self).stack@))]);
        }
    }

    /// Signed wrapping subtraction: pop two 8-bit values, push their difference.
    pub fn sub_i8(&mut self)
        requires
            old(self).stack@.len() >= 2,
        ensures
            final(self)@ == (ProcView {
                stack: old(self).stack@.subrange(0, old(self).stack@.len() - 2)
                    + seq![i8_specs::wrapping_sub(second_u8(old(self).stack@) as i8, top_u8(old(self).stack@) as i8) as u8],
                ..old(self)@
            }),
    {
        let b = self.pop_u8() as i8;
        let a = self.pop_u8() as i8;
        let r = a.wrapping_sub(b);
        self.push_u8(r as u8);
        proof {
            assert(self.stack@ =~= old(self).stack@.subrange(
                0,
                old(self).stack@.len() - 2,
            ) + seq![i8_specs::wrapping_sub(second_u8(old(self).stack@) as i8, top_u8(old(self).stack@) as i8) as u8]);
        }
    }

    /// Unsigned wrapping subtraction: pop two 16-bit values, push their difference.
    pub fn sub_u16(&mut self)
        requires
            old(self).stack@.len() >= 4,
        ensures
            final(self)@ == (ProcView {
                stack: old(self).stack@.subrange(0, old(self).stack@.len() - 4)
                    + be_bytes_u16(u16_specs::wrapping_sub(second_u16(old(self).stack@), top_u16(old(self).stack@))),
                ..old(self)@
            }),
    {
        let b = self.pop_u16();
        let a = self.pop_u16();
        let r = a.wrapping_sub(b);
        self.push_u16(r);
        proof {
            assert(self.stack@ =~= old(self).stack@.subrange(
                0,
                old(self).stack@.len() - 4,
            ) + be_bytes_u16(u16_specs::wrapping_sub(second_u16(old(self).stack@), top_u16(old(self).stack@))));
        }
    }

    /// Signed wrapping subtraction: pop two 16-bit values, push their difference.
    pub fn sub_i16(&mut self)
        requires
            old(self).stack@.len() >= 4,
        ensures
            final(self)@ == (ProcView {
                stack: old(self).stack@.subrange(0, old(self).stack@.len() - 4)
                    + be_bytes_u16(i16_specs::wrapping_sub(second_u16(old(self).stack@) as i16, top_u16(old(self).stack@) as i16) as u16),
                ..old(self)@
            }),
    {
        let b = self.pop_u16() as i16;
        let a = self.pop_u16() as i16;
        let r = a.wrapping_sub(b);
        self.push_u16(r as u16);
        proof {
            assert(self.stack@ =~= old(self).stack@.subrange(
                0,
                old(self).stack@.len() - 4,
            ) + be_bytes_u16(i16_specs::wrapping_sub(second_u16(old(self).stack@) as i16, top_u16(old(self).stack@) as i16) as u16));
        }
    }

    /// Unsigned wrapping subtraction: pop two 32-bit values, push their difference.
    pub fn sub_u32(&mut self)
        requires
            old(self).stack@.len() >= 8,
        ensures
            final(self)@ == (ProcView {
                stack: old(self).stack@.subrange(0, old(self).stack@.len() - 8)
                    + be_bytes_u32(u32_specs::wrapping_sub(second_u32(old(self).stack@), top_u32(old(self).stack@))),
                ..old(self)@
            }),
    {
        let b = self.pop_u32();
        let a = self.pop_u32();
        let r = a.wrapping_sub(b);
        self.push_u32(r);
        proof {
            assert(self.stack@ =~= old(self).stack@.subrange(
                0,
                old(self).stack@.len() - 8,
            ) + be_bytes_u32(u32_specs::wrapping_sub(second_u32(old(self).stack@), top_u32(old(self).stack@))));
        }
    }

    /// Signed wrapping subtraction: pop two 32-bit values, push their difference.
    pub fn sub_i32(&mut self)
        requires
            old(self).stack@.len() >= 8,
        ensures
            final(self)@ == (ProcView {
                stack: old(self).stack@.subrange(0, old(self).stack@.len() - 8)
                    + be_bytes_u32(i32_specs::wrapping_sub(second_u32(old(self).stack@) as i32, top_u32(old(self).stack@) as i32) as u32),
                ..old(self)@
            }),
    {
        let b = self.pop_u32() as i32;
        let a = self.pop_u32() as i32;
        let r = a.wrapping_sub(b);
        self.push_u32(r as u32);
        proof {
            assert(self.stack@ =~= old(self).stack@.subrange(
                0,
                old(self).stack@.len() - 8,
            ) + be_bytes_u32(i32_specs::wrapping_sub(second_u32(old(self).stack@) as i32, top_u32(old(self).stack@) as i32) as u32));
        }
    }

    /// Unsigned wrapping subtraction: pop two 64-bit values, push their difference.
    pub fn sub_u64(&mut self)
        requires
            old(self).stack@.len() >= 16,
        ensures
            final(self)@ == (ProcView {
                stack: old(self).stack@.subrange(0, old(self).stack@.len() - 16)
                    + be_bytes_u64(u64_specs::wrapping_sub(second_u64(old(self).stack@), top_u64(old(self).stack@))),
                ..old(self)@
            }),
    {
        let b = self.pop_u64();
        let a = self.pop_u64();
        let r = a.wrapping_sub(b);
        self.push_u64(r);
        proof {
            assert(self.stack@ =~= old(self).stack@.subrange(
                0,
                old(self).stack@.len() - 16,
            ) + be_bytes_u64(u64_specs::wrapping_sub(second_u64(old(self).stack@), top_u64(old(self).stack@))));
        }
    }

    /// Signed wrapping subtraction: pop two 64-bit values, push their difference.
    pub fn sub_i64(&mut self)
        requires
            old(self).stack@.len() >= 16,
        ensures
            final(self)@ == (ProcView {
                stack: old(self).stack@.subrange(0, old(self).stack@.len() - 16)
                    + be_bytes_u64(i64_specs::wrapping_sub(second_u64(old(self).stack@) as i64, top_u64(old(self).stack@) as i64) as u64),
                ..old(self)@
            }),
    {
        let b = self.pop_u64() as i64;
        let a = self.pop_u64() as i64;
        let r = a.wrapping_sub(b);
        self.push_u64(r as u64);
        proof {
            assert(self.stack@ =~= old(self).stack@.subrange(
                0,
                old(self).stack@.len() - 16,
            ) + be_bytes_u64(i64_specs::wrapping_sub(second_u64(old(self).stack@) as i64, top_u64(old(self).stack@) as i64) as u64));
        }
    }

    /// Unsigned wrapping multiplication: pop two 8-bit values, push their product.
    pub fn mul_u8(&mut self)
        requires
            old(self).stack@.len() >= 2,
        ensures
            final(self)@ == (ProcView {
                stack: old(self).stack@.subrange(0, old(self).stack@.len() - 2)
                    + seq![u8_specs::wrapping_mul(second_u8(old(self).stack@), top_u8(old(self).stack@))],
                ..old(self)@
            }),
    {
        let b = self.pop_u8();
        let a = self.pop_u8();
        let r = a.wrapping_mul(b);
        self.push_u8(r);
        proof {
            assert(self.stack@ =~= old(self).stack@.subrange(
                0,
                old(self).stack@.len() - 2,
            ) + seq![u8_specs::wrapping_mul(second_u8(old(self).stack@), top_u8(old(self).stack@))]);
        }
    }

    /// Signed wrapping multiplication: pop two 8-bit values, push their product.
    pub fn mul_i8(&mut self)
        requires
            old(self).stack@.len() >= 2,
        ensures
            final(self)@ == (ProcView {
                stack: old(self).stack@.subrange(0, old(self).stack@.len() - 2)
                    + seq![i8_specs::wrapping_mul(second_u8(old(self).stack@) as i8, top_u8(old(self).stack@) as i8) as u8],
                ..old(self)@
            }),
    {
        let b = self.pop_u8() as i8;
        let a = self.pop_u8() as i8;
        let r = a.wrapping_mul(b);
        self.push_u8(r as u8);
        proof {
            assert(self.stack@ =~= old(self).stack@.subrange(
                0,
                old(self).stack@.len() - 2,
            ) + seq![i8_specs::wrapping_mul(second_u8(old(self).stack@) as i8, top_u8(old(self).stack@) as i8) as u8]);
        }
    }

    /// Unsigned wrapping multiplication: pop two 16-bit values, push their product.
    pub fn mul_u16(&mut self)
        requires
            old(self).stack@.len() >= 4,
        ensures
            final(self)@ == (ProcView {
                stack: old(self).stack@.subrange(0, old(self).stack@.len() - 4)
                    + be_bytes_u16(u16_specs::wrapping_mul(second_u16(old(self).stack@), top_u16(old(self).stack@))),
                ..old(self)@
            }),
    {
        let b = self.pop_u16();
        let a = self.pop_u16();
        let r = a.wrapping_mul(b);
        self.push_u16(r);
        proof {
            assert(self.stack@ =~= old(self).stack@.subrange(
                0,
                old(self).stack@.len() - 4,
            ) + be_bytes_u16(u16_specs::wrapping_mul(second_u16(old(self).stack@), top_u16(old(self).stack@))));
        }
    }

    /// Signed wrapping multiplication: pop two 16-bit values, push their product.
    pub fn mul_i16(&mut self)
        requires
            old(self).stack@.len() >= 4,
        ensures
            final(self)@ == (ProcView {
                stack: old(self).stack@.subrange(0, old(self).stack@.len() - 4)
                    + be_bytes_u16(i16_specs::wrapping_mul(second_u16(old(self).stack@) as i16, top_u16(old(self).stack@) as i16) as u16),
                ..old(self)@
            }),
    {
        let b = self.pop_u16() as i16;
        let a = self.pop_u16() as i16;
        let r = a.wrapping_mul(b);
        self.push_u16(r as u16);
        proof {
            assert(self.stack@ =~= old(self).stack@.subrange(
                0,
                old(self).stack@.len() - 4,
            ) + be_bytes_u16(i16_specs::wrapping_mul(second_u16(old(self).stack@) as i16, top_u16(old(self).stack@) as i16) as u16));
        }
    }

    /// Unsigned wrapping multiplication: pop two 32-bit values, push their product.
    pub fn mul_u32(&mut self)
        requires
            old(self).stack@.len() >= 8,
        ensures
            final(self)@ == (ProcView {
                stack: old(self).stack@.subrange(0, old(self).stack@.len() - 8)
                    + be_bytes_u32(u32_specs::wrapping_mul(second_u32(old(self).stack@), top_u32(old(self).stack@))),
                ..old(self)@
            }),
    {
        let b = self.pop_u32();
        let a = self.pop_u32();
        let r = a.wrapping_mul(b);
        self.push_u32(r);
        proof {
            assert(self.stack@ =~= old(self).stack@.subrange(
                0,
                old(self).stack@.len() - 8,
            ) + be_bytes_u32(u32_specs::wrapping_mul(second_u32(old(self).stack@), top_u32(old(self).stack@))));
        }
    }

    /// Signed wrapping multiplication: pop two 32-bit values, push their product.
    pub fn mul_i32(&mut self)
        requires
            old(self).stack@.len() >= 8,
        ensures
            final(self)@ == (ProcView {
                stack: old(self).stack@.subrange(0, old(self).stack@.len() - 8)
                    + be_bytes_u32(i32_specs::wrapping_mul(second_u32(old(self).stack@) as i32, top_u32(old(self).stack@) as i32) as u32),
                ..old(self)@
            }),
    {
        let b = self.pop_u32() as i32;
        let a = self.pop_u32() as i32;
        let r = a.wrapping_mul(b);
        self.push_u32(r as u32);
        proof {
            assert(self.stack@ =~= old(self).stack@.subrange(
                0,
                old(self).stack@.len() - 8,
            ) + be_bytes_u32(i32_specs::wrapping_mul(second_u32(old(self).stack@) as i32, top_u32(old(self).stack@) as i32) as u32));
        }
    }

    /// Unsigned wrapping multiplication: pop two 64-bit values, push their product.
    pub fn mul_u64(&mut self)
        requires
            old(self).stack@.len() >= 16,
        ensures
            final(self)@ == (ProcView {
                stack: old(self).stack@.subrange(0, old(self).stack@.len() - 16)
                    + be_bytes_u64(u64_specs::wrapping_mul(second_u64(old(self).stack@), top_u64(old(self).stack@))),
                ..old(self)@
            }),
    {
        let b = self.pop_u64();
        let a = self.pop_u64();
        let r = a.wrapping_mul(b);
        self.push_u64(r);
        proof {
            assert(self.stack@ =~= old(self).stack@.subrange(
                0,
                old(self).stack@.len() - 16,
            ) + be_bytes_u64(u64_specs::wrapping_mul(second_u64(old(self).stack@), top_u64(old(self).stack@))));
        }
    }

    /// Signed wrapping multiplication: pop two 64-bit values, push their product.
    pub fn mul_i64(&mut self)
        requires
            old(self).stack@.len() >= 16,
        ensures
            final(self)@ == (ProcView {
                stack: old(self).stack@.subrange(0, old(self).stack@.len() - 16)
                    + be_bytes_u64(i64_specs::wrapping_mul(second_u64(old(self).stack@) as i64, top_u64(old(self).stack@) as i64) as u64),
                ..old(self)@
            }),
    {
        let b = self.pop_u64() as i64;
        let a = self.pop_u64() as i64;
        let r = a.wrapping_mul(b);
        self.push_u64(r as u64);
        proof {
            assert(self.stack@ =~= old(self).stack@.subrange(
                0,
                old(self).stack@.len() - 16,
            ) + be_bytes_u64(i64_specs::wrapping_mul(second_u64(old(self).stack@) as i64, top_u64(old(self).stack@) as i64) as u64));
        }
    }

    /// Unsigned division: pop the divisor, then the dividend, push the quotient.
    pub fn div_u8(&mut self)
        requires
            old(self).stack@.len() >= 2,
            top_u8(old(self).stack@) != 0,
        ensures
            final(self)@ == (ProcView {
                stack: old(self).stack@.subrange(0, old(self).stack@.len() - 2)
                    + seq![((second_u8(old(self).stack@) as nat) / (top_u8(old(self).stack@) as nat)) as u8],
                ..old(self)@
            }),
    {
        let b = self.pop_u8();
        let a = self.pop_u8();
        let r = a / b;
        self.push_u8(r);
        proof {
            assert(self.stack@ =~= old(self).stack@.subrange(
                0,
                old(self).stack@.len() - 2,
            ) + seq![((second_u8(old(self).stack@) as nat) / (top_u8(old(self).stack@) as nat)) as u8]);
        }
    }

    /// Unsigned remainder: pop the divisor, then the dividend, push the remainder.
    pub fn rem_u8(&mut self)
        requires
            old(self).stack@.len() >= 2,
            top_u8(old(self).stack@) != 0,
        ensures
            final(self)@ == (ProcView {
                stack: old(self).stack@.subrange(0, old(self).stack@.len() - 2)
                    + seq![((second_u8(old(self).stack@) as nat) % (top_u8(old(self).stack@) as nat)) as u8],
                ..old(self)@
            }),
    {
        let b = self.pop_u8();
        let a = self.pop_u8();
        let r = a % b;
        self.push_u8(r);
        proof {
            assert(self.stack@ =~= old(self).stack@.subrange(
                0,
                old(self).stack@.len() - 2,
            ) + seq![((second_u8(old(self).stack@) as nat) % (top_u8(old(self).stack@) as nat)) as u8]);
        }
    }

    /// Signed division, truncating toward zero and wrapping on the one overflowing quotient.
    pub fn div_i8(&mut self)
        requires
            old(self).stack@.len() >= 2,
            top_u8(old(self).stack@) as i8 != 0,
        ensures
            final(self)@ == (ProcView {
                stack: old(self).stack@.subrange(0, old(self).stack@.len() - 2)
                    + seq![sdiv_i8(second_u8(old(self).stack@) as i8, top_u8(old(self).stack@) as i8) as u8],
                ..old(self)@
            }),
    {
        let b = self.pop_u8() as i8;
        let a = self.pop_u8() as i8;
        proof {
            lemma_checked_div_i8(a, b);
        }
        let r = match a.checked_div(b) {
            Some(q) => q,
            None => i8::MIN,
        };
        self.push_u8(r as u8);
        proof {
            assert(self.stack@ =~= old(self).stack@.subrange(
                0,
                old(self).stack@.len() - 2,
            ) + seq![sdiv_i8(second_u8(old(self).stack@) as i8, top_u8(old(self).stack@) as i8) as u8]);
        }
    }

    /// Signed remainder of division truncating toward zero; it carries the sign of the dividend.
    pub fn rem_i8(&mut self)
        requires
            old(self).stack@.len() >= 2,
            top_u8(old(self).stack@) as i8 != 0,
        ensures
            final(self)@ == (ProcView {
                stack: old(self).stack@.subrange(0, old(self).stack@.len() - 2)
                    + seq![srem_i8(second_u8(old(self).stack@) as i8, top_u8(old(self).stack@) as i8) as u8],
                ..old(self)@
            }),
    {
        let b = self.pop_u8() as i8;
        let a = self.pop_u8() as i8;
        proof {
            lemma_checked_rem_i8(a, b);
        }
        let r = match a.checked_rem(b) {
            Some(q) => q,
            None => 0,
        };
        self.push_u8(r as u8);
        proof {
            assert(self.stack@ =~= old(self).stack@.subrange(
                0,
                old(self).stack@.len() - 2,
            ) + seq![srem_i8(second_u8(old(self).stack@) as i8, top_u8(old(self).stack@) as i8) as u8]);
        }
    }

    /// Unsigned division: pop the divisor, then the dividend, push the quotient.
    pub fn div_u16(&mut self)
        requires
            old(self).stack@.len() >= 4,
            top_u16(old(self).stack@) != 0,
        ensures
            final(self)@ == (ProcView {
                stack: old(self).stack@.subrange(0, old(self).stack@.len() - 4)
                    + be_bytes_u16(((second_u16(old(self).stack@) as nat) / (top_u16(old(self).stack@) as nat)) as u16),
                ..old(self)@
            }),
    {
        let b = self.pop_u16();
        let a = self.pop_u16();
        let r = a / b;
        self.push_u16(r);
        proof {
            assert(self.stack@ =~= old(self).stack@.subrange(
                0,
                old(self).stack@.len() - 4,
            ) + be_bytes_u16(((second_u16(old(self).stack@) as nat) / (top_u16(old(self).stack@) as nat)) as u16));
        }
    }

    /// Unsigned remainder: pop the divisor, then the dividend, push the remainder.
    pub fn rem_u16(&mut self)
        requires
            old(self).stack@.len() >= 4,
            top_u16(old(self).stack@) != 0,
        ensures
            final(self)@ == (ProcView {
                stack: old(self).stack@.subrange(0, old(self).stack@.len() - 4)
                    + be_bytes_u16(((second_u16(old(self).stack@) as nat) % (top_u16(old(self).stack@) as nat)) as u16),
                ..old(self)@
            }),
    {
        let b = self.pop_u16();
        let a = self.pop_u16();
        let r = a % b;
        self.push_u16(r);
        proof {
            assert(self.stack@ =~= old(self).stack@.subrange(
                0,
                old(self).stack@.len() - 4,
            ) + be_bytes_u16(((second_u16(old(self).stack@) as nat) % (top_u16(old(self).stack@) as nat)) as u16));
        }
    }

    /// Signed division, truncating toward zero and wrapping on the one overflowing quotient.
    pub fn div_i16(&mut self)
        requires
            old(self).stack@.len() >= 4,
            top_u16(old(self).stack@) as i16 != 0,
        ensures
            final(self)@ == (ProcView {
                stack: old(self).stack@.subrange(0, old(self).stack@.len() - 4)
                    + be_bytes_u16(sdiv_i16(second_u16(old(self).stack@) as i16, top_u16(old(self).stack@) as i16) as u16),
                ..old(self)@
            }),
    {
        let b = self.pop_u16() as i16;
        let a = self.pop_u16() as i16;
        proof {
            lemma_checked_div_i16(a, b);
        }
        let r = match a.checked_div(b) {
            Some(q) => q,
            None => i16::MIN,
        };
        self.push_u16(r as u16);
        proof {
            assert(self.stack@ =~= old(self).stack@.subrange(
                0,
                old(self).stack@.len() - 4,
            ) + be_bytes_u16(sdiv_i16(second_u16(old(self).stack@) as i16, top_u16(old(self).stack@) as i16) as u16));
        }
    }

    /// Signed remainder of division truncating toward zero; it carries the sign of the dividend.
    pub fn rem_i16(&mut self)
        requires
            old(self).stack@.len() >= 4,
            top_u16(old(self).stack@) as i16 != 0,
        ensures
            final(self)@ == (ProcView {
                stack: old(self).stack@.subrange(0, old(self).stack@.len() - 4)
                    + be_bytes_u16(srem_i16(second_u16(old(self).stack@) as i16, top_u16(old(self).stack@) as i16) as u16),
                ..old(self)@
            }),
    {
        let b = self.pop_u16() as i16;
        let a = self.pop_u16() as i16;
        proof {
            lemma_checked_rem_i16(a, b);
        }
        let r = match a.checked_rem(b) {
            Some(q) => q,
            None => 0,
        };
        self.push_u16(r as u16);
        proof {
            assert(self.stack@ =~= old(self).stack@.subrange(
                0,
                old(self).stack@.len() - 4,
            ) + be_bytes_u16(srem_i16(second_u16(old(self).stack@) as i16, top_u16(old(self).stack@) as i16) as u16));
        }
    }

    /// Unsigned division: pop the divisor, then the dividend, push the quotient.
    pub fn div_u32(&mut self)
        requires
            old(self).stack@.len() >= 8,
            top_u32(old(self).stack@) != 0,
        ensures
            final(self)@ == (ProcView {
                stack: old(self).stack@.subrange(0, old(self).stack@.len() - 8)
                    + be_bytes_u32(((second_u32(old(self).stack@) as nat) / (top_u32(old(self).stack@) as nat)) as u32),
                ..old(self)@
            }),
    {
        let b = self.pop_u32();
        let a = self.pop_u32();
        let r = a / b;
        self.push_u32(r);
        proof {
            assert(self.stack@ =~= old(self).stack@.subrange(
                0,
                old(self).stack@.len() - 8,
            ) + be_bytes_u32(((second_u32(old(self).stack@) as nat) / (top_u32(old(self).stack@) as nat)) as u32));
        }
    }

    /// Unsigned remainder: pop the divisor, then the dividend, push the remainder.
    pub fn rem_u32(&mut self)
        requires
            old(self).stack@.len() >= 8,
            top_u32(old(self).stack@) != 0,
        ensures
            final(self)@ == (ProcView {
                stack: old(self).stack@.subrange(0, old(self).stack@.len() - 8)
                    + be_bytes_u32(((second_u32(old(self).stack@) as nat) % (top_u32(old(self).stack@) as nat)) as u32),
                ..old(self)@
            }),
    {
        let b = self.pop_u32();
        let a = self.pop_u32();
        let r = a % b;
        self.push_u32(r);
        proof {
            assert(self.stack@ =~= old(self).stack@.subrange(
                0,
                old(self).stack@.len() - 8,
            ) + be_bytes_u32(((second_u32(old(self).stack@) as nat) % (top_u32(old(self).stack@) as nat)) as u32));
        }
    }

    /// Signed division, truncating toward zero and wrapping on the one overflowing quotient.
    pub fn div_i32(&mut self)
        requires
            old(self).stack@.len() >= 8,
            top_u32(old(self).stack@) as i32 != 0,
        ensures
            final(self)@ == (ProcView {
                stack: old(self).stack@.subrange(0, old(self).stack@.len() - 8)
                    + be_bytes_u32(sdiv_i32(second_u32(old(self).stack@) as i32, top_u32(old(self).stack@) as i32) as u32),
                ..old(self)@
            }),
    {
        let b = self.pop_u32() as i32;
        let a = self.pop_u32() as i32;
        proof {
            lemma_checked_div_i32(a, b);
        }
        let r = match a.checked_div(b) {
            Some(q) => q,
            None => i32::MIN,
        };
        self.push_u32(r as u32);
        proof {
            assert(self.stack@ =~= old(self).stack@.subrange(
                0,
                old(self).stack@.len() - 8,
            ) + be_bytes_u32(sdiv_i32(second_u32(old(self).stack@) as i32, top_u32(old(self).stack@) as i32) as u32));
        }
    }

    /// Signed remainder of division truncating toward zero; it carries the sign of the dividend.
    pub fn rem_i32(&mut self)
        requires
            old(self).stack@.len() >= 8,
            top_u32(old(self).stack@) as i32 != 0,
        ensures
            final(self)@ == (ProcView {
                stack: old(self).stack@.subrange(0, old(self).stack@.len() - 8)
                    + be_bytes_u32(srem_i32(second_u32(old(self).stack@) as i32, top_u32(old(self).stack@) as i32) as u32),
                ..old(self)@
            }),
    {
        let b = self.pop_u32() as i32;
        let a = self.pop_u32() as i32;
        proof {
            lemma_checked_rem_i32(a, b);
        }
        let r = match a.checked_rem(b) {
            Some(q) => q,
            None => 0,
        };
        self.push_u32(r as u32);
        proof {
            assert(self.stack@ =~= old(self).stack@.subrange(
                0,
                old(self).stack@.len() - 8,
            ) + be_bytes_u32(srem_i32(second_u32(old(self).stack@) as i32, top_u32(old(self).stack@) as i32) as u32));
        }
    }

    /// Unsigned division: pop the divisor, then the dividend, push the quotient.
    pub fn div_u64(&mut self)
        requires
            old(self).stack@.len() >= 16,
            top_u64(old(self).stack@) != 0,
        ensures
            final(self)@ == (ProcView {
                stack: old(self).stack@.subrange(0, old(self).stack@.len() - 16)
                    + be_bytes_u64(((second_u64(old(self).stack@) as nat) / (top_u64(old(self).stack@) as nat)) as u64),
                ..old(self)@
            }),
    {
        let b = self.pop_u64();
        let a = self.pop_u64();
        let r = a / b;
        self.push_u64(r);
        proof {
            assert(self.stack@ =~= old(self).stack@.subrange(
                0,
                old(self).stack@.len() - 16,
            ) + be_bytes_u64(((second_u64(old(self).stack@) as nat) / (top_u64(old(self).stack@) as nat)) as u64));
        }
    }

    /// Unsigned remainder: pop the divisor, then the dividend, push the remainder.
    pub fn rem_u64(&mut self)
        requires
            old(self).stack@.len() >= 16,
            top_u64(old(self).stack@) != 0,
        ensures
            final(self)@ == (ProcView {
                stack: old(self).stack@.subrange(0, old(self).stack@.len() - 16)
                    + be_bytes_u64(((second_u64(old(self).stack@) as nat) % (top_u64(old(self).stack@) as nat)) as u64),
                ..old(self)@
            }),
    {
        let b = self.pop_u64();
        let a = self.pop_u64();
        let r = a % b;
        self.push_u64(r);
        proof {
            assert(self.stack@ =~= old(self).stack@.subrange(
                0,
                old(self).stack@.len() - 16,
            ) + be_bytes_u64(((second_u64(old(self).stack@) as nat) % (top_u64(old(self).stack@) as nat)) as u64));
        }
    }

    /// Signed division, truncating toward zero and wrapping on the one overflowing quotient.
    pub fn div_i64(&mut self)
        requires
            old(self).stack@.len() >= 16,
            top_u64(old(self).stack@) as i64 != 0,
        ensures
            final(self)@ == (ProcView {
                stack: old(self).stack@.subrange(0, old(self).stack@.len() - 16)
                    + be_bytes_u64(sdiv_i64(second_u64(old(self).stack@) as i64, top_u64(old(self).stack@) as i64) as u64),
                ..old(self)@
            }),
    {
        let b = self.pop_u64() as i64;
        let a = self.pop_u64() as i64;
        proof {
            lemma_checked_div_i64(a, b);
        }
        let r = match a.checked_div(b) {
            Some(q) => q,
            None => i64::MIN,
        };
        self.push_u64(r as u64);
        proof {
            assert(self.stack@ =~= old(self).stack@.subrange(
                0,
                old(self).stack@.len() - 16,
            ) + be_bytes_u64(sdiv_i64(second_u64(old(self).stack@) as i64, top_u64(old(self).stack@) as i64) as u64));
        }
    }

    /// Signed remainder of division truncating toward zero; it carries the sign of the dividend.
    pub fn rem_i64(&mut self)
        requires
            old(self).stack@.len() >= 16,
            top_u64(old(self).stack@) as i64 != 0,
        ensures
            final(self)@ == (ProcView {
                stack: old(self).stack@.subrange(0, old(self).stack@.len() - 16)
                    + be_bytes_u64(srem_i64(second_u64(old(self).stack@) as i64, top_u64(old(self).stack@) as i64) as u64),
                ..old(self)@
            }),
    {
        let b = self.pop_u64() as i64;
        let a = self.pop_u64() as i64;
        proof {
            lemma_checked_rem_i64(a, b);
        }
        let r = match a.checked_rem(b) {
            Some(q) => q,
            None => 0,
        };
        self.push_u64(r as u64);
        proof {
            assert(self.stack@ =~= old(self).stack@.subrange(
                0,
                old(self).stack@.len() - 16,
            ) + be_bytes_u64(srem_i64(second_u64(old(self).stack@) as i64, top_u64(old(self).stack@) as i64) as u64));
        }
    }

    /// Bitwise `&`: pop two 8-bit values, push the result.
    pub fn and_u8(&mut self)
        requires
            old(self).stack@.len() >= 2,
        ensures
            final(self)@ == (ProcView {
                stack: old(self).stack@.subrange(0, old(self).stack@.len() - 2)
                    + seq![(second_u8(old(self).stack@) & top_u8(old(self).stack@))],
                ..old(self)@
            }),
    {
        let b = self.pop_u8();
        let a = self.pop_u8();
        self.push_u8(a & b);
        proof {
            assert(self.stack@ =~= old(self).stack@.subrange(
                0,
                old(self).stack@.len() - 2,
            ) + seq![(second_u8(old(self).stack@) & top_u8(old(self).stack@))]);
        }
    }

    /// Bitwise `&` on the two's complement reading of the operands.
    pub fn and_i8(&mut self)
        requires
            old(self).stack@.len() >= 2,
        ensures
            final(self)@ == (ProcView {
                stack: old(self).stack@.subrange(0, old(self).stack@.len() - 2)
                    + seq![((second_u8(old(self).stack@) as i8) & (top_u8(old(self).stack@) as i8)) as u8],
                ..old(self)@
            }),
    {
        let b = self.pop_u8() as i8;
        let a = self.pop_u8() as i8;
        self.push_u8((a & b) as u8);
        proof {
            assert(self.stack@ =~= old(self).stack@.subrange(
                0,
                old(self).stack@.len() - 2,
            ) + seq![((second_u8(old(self).stack@) as i8) & (top_u8(old(self).stack@) as i8)) as u8]);
        }
    }

    /// Bitwise `&`: pop two 16-bit values, push the result.
    pub fn and_u16(&mut self)
        requires
            old(self).stack@.len() >= 4,
        ensures
            final(self)@ == (ProcView {
                stack: old(self).stack@.subrange(0, old(self).stack@.len() - 4)
                    + be_bytes_u16((second_u16(old(self).stack@) & top_u16(old(self).stack@))),
                ..old(self)@
            }),
    {
        let b = self.pop_u16();
        let a = self.pop_u16();
        self.push_u16(a & b);
        proof {
            assert(self.stack@ =~= old(self).stack@.subrange(
                0,
                old(self).stack@.len() - 4,
            ) + be_bytes_u16((second_u16(old(self).stack@) & top_u16(old(self).stack@))));
        }
    }

    /// Bitwise `&` on the two's complement reading of the operands.
    pub fn and_i16(&mut self)
        requires
            old(self).stack@.len() >= 4,
        ensures
            final(self)@ == (ProcView {
                stack: old(self).stack@.subrange(0, old(self).stack@.len() - 4)
                    + be_bytes_u16(((second_u16(old(self).stack@) as i16) & (top_u16(old(self).stack@) as i16)) as u16),
                ..old(self)@
            }),
    {
        let b = self.pop_u16() as i16;
        let a = self.pop_u16() as i16;
        self.push_u16((a & b) as u16);
        proof {
            assert(self.stack@ =~= old(self).stack@.subrange(
                0,
                old(self).stack@.len() - 4,
            ) + be_bytes_u16(((second_u16(old(self).stack@) as i16) & (top_u16(old(self).stack@) as i16)) as u16));
        }
    }

    /// Bitwise `&`: pop two 32-bit values, push the result.
    pub fn and_u32(&mut self)
        requires
            old(self).stack@.len() >= 8,
        ensures
            final(self)@ == (ProcView {
                stack: old(self).stack@.subrange(0, old(self).stack@.len() - 8)
                    + be_bytes_u32((second_u32(old(self).stack@) & top_u32(old(self).stack@))),
                ..old(self)@
            }),
    {
        let b = self.pop_u32();
        let a = self.pop_u32();
        self.push_u32(a & b);
        proof {
            assert(self.stack@ =~= old(self).stack@.subrange(
                0,
                old(self).stack@.len() - 8,
            ) + be_bytes_u32((second_u32(old(self).stack@) & top_u32(old(self).stack@))));
        }
    }

    /// Bitwise `&` on the two's complement reading of the operands.
    pub fn and_i32(&mut self)
        requires
            old(self).stack@.len() >= 8,
        ensures
            final(self)@ == (ProcView {
                stack: old(self).stack@.subrange(0, old(self).stack@.len() - 8)
                    + be_bytes_u32(((second_u32(old(self).stack@) as i32) & (top_u32(old(self).stack@) as i32)) as u32),
                ..old(self)@
            }),
    {
        let b = self.pop_u32() as i32;
        let a = self.pop_u32() as i32;
        self.push_u32((a & b) as u32);
        proof {
            assert(self.stack@ =~= old(self).stack@.subrange(
                0,
                old(self).stack@.len() - 8,
            ) + be_bytes_u32(((second_u32(old(self).stack@) as i32) & (top_u32(old(self).stack@) as i32)) as u32));
        }
    }

    /// Bitwise `&`: pop two 64-bit values, push the result.
    pub fn and_u64(&mut self)
        requires
            old(self).stack@.len() >= 16,
        ensures
            final(self)@ == (ProcView {
                stack: old(self).stack@.subrange(0, old(self).stack@.len() - 16)
                    + be_bytes_u64((second_u64(old(self).stack@) & top_u64(old(self).stack@))),
                ..old(self)@
            }),
    {
        let b = self.pop_u64();
        let a = self.pop_u64();
        self.push_u64(a & b);
        proof {
            assert(self.stack@ =~= old(self).stack@.subrange(
                0,
                old(self).stack@.len() - 16,
            ) + be_bytes_u64((second_u64(old(self).stack@) & top_u64(old(self).stack@))));
        }
    }

    /// Bitwise `&` on the two's complement reading of the operands.
    pub fn and_i64(&mut self)
        requires
            old(self).stack@.len() >= 16,
        ensures
            final(self)@ == (ProcView {
                stack: old(self).stack@.subrange(0, old(self).stack@.len() - 16)
                    + be_bytes_u64(((second_u64(old(self).stack@) as i64) & (top_u64(old(self).stack@) as i64)) as u64),
                ..old(self)@
            }),
    {
        let b = self.pop_u64() as i64;
        let a = self.pop_u64() as i64;
        self.push_u64((a & b) as u64);
        proof {
            assert(self.stack@ =~= old(self).stack@.subrange(
                0,
                old(self).stack@.len() - 16,
            ) + be_bytes_u64(((second_u64(old(self).stack@) as i64) & (top_u64(old(self).stack@) as i64)) as u64));
        }
    }

    /// Bitwise `|`: pop two 8-bit values, push the result.
    pub fn or_u8(&mut self)
        requires
            old(self).stack@.len() >= 2,
        ensures
            final(self)@ == (ProcView {
                stack: old(self).stack@.subrange(0, old(self).stack@.len() - 2)
                    + seq![(second_u8(old(self).stack@) | top_u8(old(self).stack@))],
                ..old(self)@
            }),
    {
        let b = self.pop_u8();
        let a = self.pop_u8();
        self.push_u8(a | b);
        proof {
            assert(self.stack@ =~= old(self).stack@.subrange(
                0,
                old(self).stack@.len() - 2,
            ) + seq![(second_u8(old(self).stack@) | top_u8(old(self).stack@))]);
        }
    }

    /// Bitwise `|` on the two's complement reading of the operands.
    pub fn or_i8(&mut self)
        requires
            old(self).stack@.len() >= 2,
        ensures
            final(self)@ == (ProcView {
                stack: old(self).stack@.subrange(0, old(self).stack@.len() - 2)
                    + seq![((second_u8(old(self).stack@) as i8) | (top_u8(old(self).stack@) as i8)) as u8],
                ..old(self)@
            }),
    {
        let b = self.pop_u8() as i8;
        let a = self.pop_u8() as i8;
        self.push_u8((a | b) as u8);
        proof {
            assert(self.stack@ =~= old(self).stack@.subrange(
                0,
                old(self).stack@.len() - 2,
            ) + seq![((second_u8(old(self).stack@) as i8) | (top_u8(old(self).stack@) as i8)) as u8]);
        }
    }

    /// Bitwise `|`: pop two 16-bit values, push the result.
    pub fn or_u16(&mut self)
        requires
            old(self).stack@.len() >= 4,
        ensures
            final(self)@ == (ProcView {
                stack: old(self).stack@.subrange(0, old(self).stack@.len() - 4)
                    + be_bytes_u16((second_u16(old(self).stack@) | top_u16(old(self).stack@))),
                ..old(self)@
            }),
    {
        let b = self.pop_u16();
        let a = self.pop_u16();
        self.push_u16(a | b);
        proof {
            assert(self.stack@ =~= old(self).stack@.subrange(
                0,
                old(self).stack@.len() - 4,
            ) + be_bytes_u16((second_u16(old(self).stack@) | top_u16(old(self).stack@))));
        }
    }

    /// Bitwise `|` on the two's complement reading of the operands.
    pub fn or_i16(&mut self)
        requires
            old(self).stack@.len() >= 4,
        ensures
            final(self)@ == (ProcView {
                stack: old(self).stack@.subrange(0, old(self).stack@.len() - 4)
                    + be_bytes_u16(((second_u16(old(self).stack@) as i16) | (top_u16(old(self).stack@) as i16)) as u16),
                ..old(self)@
            }),
    {
        let b = self.pop_u16() as i16;
        let a = self.pop_u16() as i16;
        self.push_u16((a | b) as u16);
        proof {
            assert(self.stack@ =~= old(self).stack@.subrange(
                0,
                old(self).stack@.len() - 4,
            ) + be_bytes_u16(((second_u16(old(self).stack@) as i16) | (top_u16(old(self).stack@) as i16)) as u16));
        }
    }

    /// Bitwise `|`: pop two 32-bit values, push the result.
    pub fn or_u32(&mut self)
        requires
            old(self).stack@.len() >= 8,
        ensures
            final(self)@ == (ProcView {
                stack: old(self).stack@.subrange(0, old(self).stack@.len() - 8)
                    + be_bytes_u32((second_u32(old(self).stack@) | top_u32(old(self).stack@))),
                ..old(self)@
            }),
    {
        let b = self.pop_u32();
        let a = self.pop_u32();
        self.push_u32(a | b);
        proof {
            assert(self.stack@ =~= old(self).stack@.subrange(
                0,
                old(self).stack@.len() - 8,
            ) + be_bytes_u32((second_u32(old(self).stack@) | top_u32(old(self).stack@))));
        }
    }

    /// Bitwise `|` on the two's complement reading of the operands.
    pub fn or_i32(&mut self)
        requires
            old(self).stack@.len() >= 8,
        ensures
            final(self)@ == (ProcView {
                stack: old(self).stack@.subrange(0, old(self).stack@.len() - 8)
                    + be_bytes_u32(((second_u32(old(self).stack@) as i32) | (top_u32(old(self).stack@) as i32)) as u32),
                ..old(self)@
            }),
    {
        let b = self.pop_u32() as i32;
        let a = self.pop_u32() as i32;
        self.push_u32((a | b) as u32);
        proof {
            assert(self.stack@ =~= old(self).stack@.subrange(
                0,
                old(self).stack@.len() - 8,
            ) + be_bytes_u32(((second_u32(old(self).stack@) as i32) | (top_u32(old(self).stack@) as i32)) as u32));
        }
    }

    /// Bitwise `|`: pop two 64-bit values, push the result.
    pub fn or_u64(&mut self)
        requires
            old(self).stack@.len() >= 16,
        ensures
            final(self)@ == (ProcView {
                stack: old(self).stack@.subrange(0, old(self).stack@.len() - 16)
                    + be_bytes_u64((second_u64(old(self).stack@) | top_u64(old(self).stack@))),
                ..old(self)@
            }),
    {
        let b = self.pop_u64();
        let a = self.pop_u64();
        self.push_u64(a | b);
        proof {
            assert(self.stack@ =~= old(self).stack@.subrange(
                0,
                old(self).stack@.len() - 16,
            ) + be_bytes_u64((second_u64(old(self).stack@) | top_u64(old(self).stack@))));
        }
    }

    /// Bitwise `|` on the two's complement reading of the operands.
    pub fn or_i64(&mut self)
        requires
            old(self).stack@.len() >= 16,
        ensures
            final(self)@ == (ProcView {
                stack: old(self).stack@.subrange(0, old(self).stack@.len() - 16)
                    + be_bytes_u64(((second_u64(old(self).stack@) as i64) | (top_u64(old(self).stack@) as i64)) as u64),
                ..old(self)@
            }),
    {
        let b = self.pop_u64() as i64;
        let a = self.pop_u64() as i64;
        self.push_u64((a | b) as u64);
        proof {
            assert(self.stack@ =~= old(self).stack@.subrange(
                0,
                old(self).stack@.len() - 16,
            ) + be_bytes_u64(((second_u64(old(self).stack@) as i64) | (top_u64(old(self).stack@) as i64)) as u64));
        }
    }

    /// Bitwise `^`: pop two 8-bit values, push the result.
    pub fn xor_u8(&mut self)
        requires
            old(self).stack@.len() >= 2,
        ensures
            final(self)@ == (ProcView {
                stack: old(self).stack@.subrange(0, old(self).stack@.len() - 2)
                    + seq![(second_u8(old(self).stack@) ^ top_u8(old(self).stack@))],
                ..old(self)@
            }),
    {
        let b = self.pop_u8();
        let a = self.pop_u8();
        self.push_u8(a ^ b);
        proof {
            assert(self.stack@ =~= old(self).stack@.subrange(
                0,
                old(self).stack@.len() - 2,
            ) + seq![(second_u8(old(self).stack@) ^ top_u8(old(self).stack@))]);
        }
    }

    /// Bitwise `^` on the two's complement reading of the operands.
    pub fn xor_i8(&mut self)
        requires
            old(self).stack@.len() >= 2,
        ensures
            final(self)@ == (ProcView {
                stack: old(self).stack@.subrange(0, old(self).stack@.len() - 2)
                    + seq![((second_u8(old(self).stack@) as i8) ^ (top_u8(old(self).stack@) as i8)) as u8],
                ..old(self)@
            }),
    {
        let b = self.pop_u8() as i8;
        let a = self.pop_u8() as i8;
        self.push_u8((a ^ b) as u8);
        proof {
            assert(self.stack@ =~= old(self).stack@.subrange(
                0,
                old(self).stack@.len() - 2,
            ) + seq![((second_u8(old(self).stack@) as i8) ^ (top_u8(old(self).stack@) as i8)) as u8]);
        }
    }

    /// Bitwise `^`: pop two 16-bit values, push the result.
    pub fn xor_u16(&mut self)
        requires
            old(self).stack@.len() >= 4,
        ensures
            final(self)@ == (ProcView {
                stack: old(self).stack@.subrange(0, old(self).stack@.len() - 4)
                    + be_bytes_u16((second_u16(old(self).stack@) ^ top_u16(old(self).stack@))),
                ..old(self)@
            }),
    {
        let b = self.pop_u16();
        let a = self.pop_u16();
        self.push_u16(a ^ b);
        proof {
            assert(self.stack@ =~= old(self).stack@.subrange(
                0,
                old(self).stack@.len() - 4,
            ) + be_bytes_u16((second_u16(old(self).stack@) ^ top_u16(old(self).stack@))));
        }
    }

    /// Bitwise `^` on the two's complement reading of the operands.
    pub fn xor_i16(&mut self)
        requires
            old(self).stack@.len() >= 4,
        ensures
            final(self)@ == (ProcView {
                stack: old(self).stack@.subrange(0, old(self).stack@.len() - 4)
                    + be_bytes_u16(((second_u16(old(self).stack@) as i16) ^ (top_u16(old(self).stack@) as i16)) as u16),
                ..old(self)@
            }),
    {
        let b = self.pop_u16() as i16;
        let a = self.pop_u16() as i16;
        self.push_u16((a ^ b) as u16);
        proof {
            assert(self.stack@ =~= old(self).stack@.subrange(
                0,
                old(self).stack@.len() - 4,
            ) + be_bytes_u16(((second_u16(old(self).stack@) as i16) ^ (top_u16(old(self).stack@) as i16)) as u16));
        }
    }

    /// Bitwise `^`: pop two 32-bit values, push the result.
    pub fn xor_u32(&mut self)
        requires
            old(self).stack@.len() >= 8,
        ensures
            final(self)@ == (ProcView {
                stack: old(self).stack@.subrange(0, old(self).stack@.len() - 8)
                    + be_bytes_u32((second_u32(old(self).stack@) ^ top_u32(old(self).stack@))),
                ..old(self)@
            }),
    {
        let b = self.pop_u32();
        let a = self.pop_u32();
        self.push_u32(a ^ b);
        proof {
            assert(self.stack@ =~= old(self).stack@.subrange(
                0,
                old(self).stack@.len() - 8,
            ) + be_bytes_u32((second_u32(old(self).stack@) ^ top_u32(old(self).stack@))));
        }
    }

    /// Bitwise `^` on the two's complement reading of the operands.
    pub fn xor_i32(&mut self)
        requires
            old(self).stack@.len() >= 8,
        ensures
            final(self)@ == (ProcView {
                stack: old(self).stack@.subrange(0, old(self).stack@.len() - 8)
                    + be_bytes_u32(((second_u32(old(self).stack@) as i32) ^ (top_u32(old(self).stack@) as i32)) as u32),
                ..old(self)@
            }),
    {
        let b = self.pop_u32() as i32;
        let a = self.pop_u32() as i32;
        self.push_u32((a ^ b) as u32);
        proof {
            assert(self.stack@ =~= old(self).stack@.subrange(
                0,
                old(self).stack@.len() - 8,
            ) + be_bytes_u32(((second_u32(old(self).stack@) as i32) ^ (top_u32(old(self).stack@) as i32)) as u32));
        }
    }

    /// Bitwise `^`: pop two 64-bit values, push the result.
    pub fn xor_u64(&mut self)
        requires
            old(self).stack@.len() >= 16,
        ensures
            final(self)@ == (ProcView {
                stack: old(self).stack@.subrange(0, old(self).stack@.len() - 16)
                    + be_bytes_u64((second_u64(old(self).stack@) ^ top_u64(old(self).stack@))),
                ..old(self)@
            }),
    {
        let b = self.pop_u64();
        let a = self.pop_u64();
        self.push_u64(a ^ b);
        proof {
            assert(self.stack@ =~= old(self).stack@.subrange(
                0,
                old(self).stack@.len() - 16,
            ) + be_bytes_u64((second_u64(old(self).stack@) ^ top_u64(old(self).stack@))));
        }
    }

    /// Bitwise `^` on the two's complement reading of the operands.
    pub fn xor_i64(&mut self)
        requires
            old(self).stack@.len() >= 16,
        ensures
            final(self)@ == (ProcView {
                stack: old(self).stack@.subrange(0, old(self).stack@.len() - 16)
                    + be_bytes_u64(((second_u64(old(self).stack@) as i64) ^ (top_u64(old(self).stack@) as i64)) as u64),
                ..old(self)@
            }),
    {
        let b = self.pop_u64() as i64;
        let a = self.pop_u64() as i64;
        self.push_u64((a ^ b) as u64);
        proof {
            assert(self.stack@ =~= old(self).stack@.subrange(
                0,
                old(self).stack@.len() - 16,
            ) + be_bytes_u64(((second_u64(old(self).stack@) as i64) ^ (top_u64(old(self).stack@) as i64)) as u64));
        }
    }

    /// Logical left shift; the amount is taken modulo 8.
    pub fn shl_u8(&mut self)
        requires
            old(self).stack@.len() >= 2,
        ensures
            final(self)@ == (ProcView {
                stack: old(self).stack@.subrange(0, old(self).stack@.len() - 2)
                    + seq![u8_specs::wrapping_shl(second_u8(old(self).stack@), top_u8(old(self).stack@) as u32)],
                ..old(self)@
            }),
    {
        let b = self.pop_u8();
        let a = self.pop_u8();
        self.push_u8(a.wrapping_shl(b as u32));
        proof {
            assert(self.stack@ =~= old(self).stack@.subrange(
                0,
                old(self).stack@.len() - 2,
            ) + seq![u8_specs::wrapping_shl(second_u8(old(self).stack@), top_u8(old(self).stack@) as u32)]);
        }
    }

    /// Left shift on the two's complement reading; the amount is taken modulo 8.
    pub fn shl_i8(&mut self)
        requires
            old(self).stack@.len() >= 2,
        ensures
            final(self)@ == (ProcView {
                stack: old(self).stack@.subrange(0, old(self).stack@.len() - 2)
                    + seq![i8_specs::wrapping_shl(second_u8(old(self).stack@) as i8, top_u8(old(self).stack@) as u32) as u8],
                ..old(self)@
            }),
    {
        let b = self.pop_u8();
        let a = self.pop_u8() as i8;
        self.push_u8(a.wrapping_shl(b as u32) as u8);
        proof {
            assert(self.stack@ =~= old(self).stack@.subrange(
                0,
                old(self).stack@.len() - 2,
            ) + seq![i8_specs::wrapping_shl(second_u8(old(self).stack@) as i8, top_u8(old(self).stack@) as u32) as u8]);
        }
    }

    /// Logical left shift; the amount is taken modulo 16.
    pub fn shl_u16(&mut self)
        requires
            old(self).stack@.len() >= 4,
        ensures
            final(self)@ == (ProcView {
                stack: old(self).stack@.subrange(0, old(self).stack@.len() - 4)
                    + be_bytes_u16(u16_specs::wrapping_shl(second_u16(old(self).stack@), top_u16(old(self).stack@) as u32)),
                ..old(self)@
            }),
    {
        let b = self.pop_u16();
        let a = self.pop_u16();
        self.push_u16(a.wrapping_shl(b as u32));
        proof {
            assert(self.stack@ =~= old(self).stack@.subrange(
                0,
                old(self).stack@.len() - 4,
            ) + be_bytes_u16(u16_specs::wrapping_shl(second_u16(old(self).stack@), top_u16(old(self).stack@) as u32)));
        }
    }

    /// Left shift on the two's complement reading; the amount is taken modulo 16.
    pub fn shl_i16(&mut self)
        requires
            old(self).stack@.len() >= 4,
        ensures
            final(self)@ == (ProcView {
                stack: old(self).stack@.subrange(0, old(self).stack@.len() - 4)
                    + be_bytes_u16(i16_specs::wrapping_shl(second_u16(old(self).stack@) as i16, top_u16(old(self).stack@) as u32) as u16),
                ..old(self)@
            }),
    {
        let b = self.pop_u16();
        let a = self.pop_u16() as i16;
        self.push_u16(a.wrapping_shl(b as u32) as u16);
        proof {
            assert(self.stack@ =~= old(self).stack@.subrange(
                0,
                old(self).stack@.len() - 4,
            ) + be_bytes_u16(i16_specs::wrapping_shl(second_u16(old(self).stack@) as i16, top_u16(old(self).stack@) as u32) as u16));
        }
    }

    /// Logical left shift; the amount is taken modulo 32.
    pub fn shl_u32(&mut self)
        requires
            old(self).stack@.len() >= 8,
        ensures
            final(self)@ == (ProcView {
                stack: old(self).stack@.subrange(0, old(self).stack@.len() - 8)
                    + be_bytes_u32(u32_specs::wrapping_shl(second_u32(old(self).stack@), top_u32(old(self).stack@) as u32)),
                ..old(self)@
            }),
    {
        let b = self.pop_u32();
        let a = self.pop_u32();
        self.push_u32(a.wrapping_shl(b as u32));
        proof {
            assert(self.stack@ =~= old(self).stack@.subrange(
                0,
                old(self).stack@.len() - 8,
            ) + be_bytes_u32(u32_specs::wrapping_shl(second_u32(old(self).stack@), top_u32(old(self).stack@) as u32)));
        }
    }

    /// Left shift on the two's complement reading; the amount is taken modulo 32.
    pub fn shl_i32(&mut self)
        requires
            old(self).stack@.len() >= 8,
        ensures
            final(self)@ == (ProcView {
                stack: old(self).stack@.subrange(0, old(self).stack@.len() - 8)
                    + be_bytes_u32(i32_specs::wrapping_shl(second_u32(old(self).stack@) as i32, top_u32(old(self).stack@) as u32) as u32),
                ..old(self)@
            }),
    {
        let b = self.pop_u32();
        let a = self.pop_u32() as i32;
        self.push_u32(a.wrapping_shl(b as u32) as u32);
        proof {
            assert(self.stack@ =~= old(self).stack@.subrange(
                0,
                old(self).stack@.len() - 8,
            ) + be_bytes_u32(i32_specs::wrapping_shl(second_u32(old(self).stack@) as i32, top_u32(old(self).stack@) as u32) as u32));
        }
    }

    /// Logical left shift; the amount is taken modulo 64.
    pub fn shl_u64(&mut self)
        requires
            old(self).stack@.len() >= 16,
        ensures
            final(self)@ == (ProcView {
                stack: old(self).stack@.subrange(0, old(self).stack@.len() - 16)
                    + be_bytes_u64(u64_specs::wrapping_shl(second_u64(old(self).stack@), top_u64(old(self).stack@) as u32)),
                ..old(self)@
            }),
    {
        let b = self.pop_u64();
        let a = self.pop_u64();
        self.push_u64(a.wrapping_shl(b as u32));
        proof {
            assert(self.stack@ =~= old(self).stack@.subrange(
                0,
                old(self).stack@.len() - 16,
            ) + be_bytes_u64(u64_specs::wrapping_shl(second_u64(old(self).stack@), top_u64(old(self).stack@) as u32)));
        }
    }

    /// Left shift on the two's complement reading; the amount is taken modulo 64.
    pub fn shl_i64(&mut self)
        requires
            old(self).stack@.len() >= 16,
        ensures
            final(self)@ == (ProcView {
                stack: old(self).stack@.subrange(0, old(self).stack@.len() - 16)
                    + be_bytes_u64(i64_specs::wrapping_shl(second_u64(old(self).stack@) as i64, top_u64(old(self).stack@) as u32) as u64),
                ..old(self)@
            }),
    {
        let b = self.pop_u64();
        let a = self.pop_u64() as i64;
        self.push_u64(a.wrapping_shl(b as u32) as u64);
        proof {
            assert(self.stack@ =~= old(self).stack@.subrange(
                0,
                old(self).stack@.len() - 16,
            ) + be_bytes_u64(i64_specs::wrapping_shl(second_u64(old(self).stack@) as i64, top_u64(old(self).stack@) as u32) as u64));
        }
    }

    /// Logical right shift; the amount is taken modulo 8.
    pub fn shr_u8(&mut self)
        requires
            old(self).stack@.len() >= 2,
        ensures
            final(self)@ == (ProcView {
                stack: old(self).stack@.subrange(0, old(self).stack@.len() - 2)
                    + seq![u8_specs::wrapping_shr(second_u8(old(self).stack@), top_u8(old(self).stack@) as u32)],
                ..old(self)@
            }),
    {
        let b = self.pop_u8();
        let a = self.pop_u8();
        self.push_u8(a.wrapping_shr(b as u32));
        proof {
            assert(self.stack@ =~= old(self).stack@.subrange(
                0,
                old(self).stack@.len() - 2,
            ) + seq![u8_specs::wrapping_shr(second_u8(old(self).stack@), top_u8(old(self).stack@) as u32)]);
        }
    }

    /// Arithmetic shift on the two's complement reading; the amount is taken modulo 8.
    pub fn shr_i8(&mut self)
        requires
            old(self).stack@.len() >= 2,
        ensures
            final(self)@ == (ProcView {
                stack: old(self).stack@.subrange(0, old(self).stack@.len() - 2)
                    + seq![i8_specs::wrapping_shr(second_u8(old(self).stack@) as i8, top_u8(old(self).stack@) as u32) as u8],
                ..old(self)@
            }),
    {
        let b = self.pop_u8();
        let a = self.pop_u8() as i8;
        self.push_u8(a.wrapping_shr(b as u32) as u8);
        proof {
            assert(self.stack@ =~= old(self).stack@.subrange(
                0,
                old(self).stack@.len() - 2,
            ) + seq![i8_specs::wrapping_shr(second_u8(old(self).stack@) as i8, top_u8(old(self).stack@) as u32) as u8]);
        }
    }

    /// Logical right shift; the amount is taken modulo 16.
    pub fn shr_u16(&mut self)
        requires
            old(self).stack@.len() >= 4,
        ensures
            final(self)@ == (ProcView {
                stack: old(self).stack@.subrange(0, old(self).stack@.len() - 4)
                    + be_bytes_u16(u16_specs::wrapping_shr(second_u16(old(self).stack@), top_u16(old(self).stack@) as u32)),
                ..old(self)@
            }),
    {
        let b = self.pop_u16();
        let a = self.pop_u16();
        self.push_u16(a.wrapping_shr(b as u32));
        proof {
            assert(self.stack@ =~= old(self).stack@.subrange(
                0,
                old(self).stack@.len() - 4,
            ) + be_bytes_u16(u16_specs::wrapping_shr(second_u16(old(self).stack@), top_u16(old(self).stack@) as u32)));
        }
    }

    /// Arithmetic shift on the two's complement reading; the amount is taken modulo 16.
    pub fn shr_i16(&mut self)
        requires
            old(self).stack@.len() >= 4,
        ensures
            final(self)@ == (ProcView {
                stack: old(self).stack@.subrange(0, old(self).stack@.len() - 4)
                    + be_bytes_u16(i16_specs::wrapping_shr(second_u16(old(self).stack@) as i16, top_u16(old(self).stack@) as u32) as u16),
                ..old(self)@
            }),
    {
        let b = self.pop_u16();
        let a = self.pop_u16() as i16;
        self.push_u16(a.wrapping_shr(b as u32) as u16);
        proof {
            assert(self.stack@ =~= old(self).stack@.subrange(
                0,
                old(self).stack@.len() - 4,
            ) + be_bytes_u16(i16_specs::wrapping_shr(second_u16(old(self).stack@) as i16, top_u16(old(self).stack@) as u32) as u16));
        }
    }

    /// Logical right shift; the amount is taken modulo 32.
    pub fn shr_u32(&mut self)
        requires
            old(self).stack@.len() >= 8,
        ensures
            final(self)@ == (ProcView {
                stack: old(self).stack@.subrange(0, old(self).stack@.len() - 8)
                    + be_bytes_u32(u32_specs::wrapping_shr(second_u32(old(self).stack@), top_u32(old(self).stack@) as u32)),
                ..old(self)@
            }),
    {
        let b = self.pop_u32();
        let a = self.pop_u32();
        self.push_u32(a.wrapping_shr(b as u32));
        proof {
            assert(self.stack@ =~= old(self).stack@.subrange(
                0,
                old(self).stack@.len() - 8,
            ) + be_bytes_u32(u32_specs::wrapping_shr(second_u32(old(self).stack@), top_u32(old(self).stack@) as u32)));
        }
    }

    /// Arithmetic shift on the two's complement reading; the amount is taken modulo 32.
    pub fn shr_i32(&mut self)
        requires
            old(self).stack@.len() >= 8,
        ensures
            final(self)@ == (ProcView {
                stack: old(self).stack@.subrange(0, old(self).stack@.len() - 8)
                    + be_bytes_u32(i32_specs::wrapping_shr(second_u32(old(self).stack@) as i32, top_u32(old(self).stack@) as u32) as u32),
                ..old(self)@
            }),
    {
        let b = self.pop_u32();
        let a = self.pop_u32() as i32;
        self.push_u32(a.wrapping_shr(b as u32) as u32);
        proof {
            assert(self.stack@ =~= old(self).stack@.subrange(
                0,
                old(self).stack@.len() - 8,
            ) + be_bytes_u32(i32_specs::wrapping_shr(second_u32(old(self).stack@) as i32, top_u32(old(self).stack@) as u32) as u32));
        }
    }

    /// Logical right shift; the amount is taken modulo 64.
    pub fn shr_u64(&mut self)
        requires
            old(self).stack@.len() >= 16,
        ensures
            final(self)@ == (ProcView {
                stack: old(self).stack@.subrange(0, old(self).stack@.len() - 16)
                    + be_bytes_u64(u64_specs::wrapping_shr(second_u64(old(self).stack@), top_u64(old(self).stack@) as u32)),
                ..old(self)@
            }),
    {
        let b = self.pop_u64();
        let a = self.pop_u64();
        self.push_u64(a.wrapping_shr(b as u32));
        proof {
            assert(self.stack@ =~= old(self).stack@.subrange(
                0,
                old(self).stack@.len() - 16,
            ) + be_bytes_u64(u64_specs::wrapping_shr(second_u64(old(self).stack@), top_u64(old(self).stack@) as u32)));
        }
    }

    /// Arithmetic shift on the two's complement reading; the amount is taken modulo 64.
    pub fn shr_i64(&mut self)
        requires
            old(self).stack@.len() >= 16,
        ensures
            final(self)@ == (ProcView {
                stack: old(self).stack@.subrange(0, old(self).stack@.len() - 16)
                    + be_bytes_u64(i64_specs::wrapping_shr(second_u64(old(self).stack@) as i64, top_u64(old(self).stack@) as u32) as u64),
                ..old(self)@
            }),
    {
        let b = self.pop_u64();
        let a = self.pop_u64() as i64;
        self.push_u64(a.wrapping_shr(b as u32) as u64);
        proof {
            assert(self.stack@ =~= old(self).stack@.subrange(
                0,
                old(self).stack@.len() - 16,
            ) + be_bytes_u64(i64_specs::wrapping_shr(second_u64(old(self).stack@) as i64, top_u64(old(self).stack@) as u32) as u64));
        }
    }

    /// Bitwise complement of the topmost 8-bit value.
    pub fn not_u8(&mut self)
        requires
            old(self).stack@.len() >= 1,
        ensures
            final(self)@ == (ProcView {
                stack: old(self).stack@.subrange(0, old(self).stack@.len() - 1)
                    + seq![!top_u8(old(self).stack@)],
                ..old(self)@
            }),
    {
        let a = self.pop_u8();
        self.push_u8(!a);
        proof {
            assert(self.stack@ =~= old(self).stack@.subrange(
                0,
                old(self).stack@.len() - 1,
            ) + seq![!top_u8(old(self).stack@)]);
        }
    }

    /// Bitwise complement on the two's complement reading.
    pub fn not_i8(&mut self)
        requires
            old(self).stack@.len() >= 1,
        ensures
            final(self)@ == (ProcView {
                stack: old(self).stack@.subrange(0, old(self).stack@.len() - 1)
                    + seq![(!(top_u8(old(self).stack@) as i8)) as u8],
                ..old(self)@
            }),
    {
        let a = self.pop_u8() as i8;
        self.push_u8((!a) as u8);
        proof {
            assert(self.stack@ =~= old(self).stack@.subrange(
                0,
                old(self).stack@.len() - 1,
            ) + seq![(!(top_u8(old(self).stack@) as i8)) as u8]);
        }
    }

    /// Bitwise complement of the topmost 16-bit value.
    pub fn not_u16(&mut self)
        requires
            old(self).stack@.len() >= 2,
        ensures
            final(self)@ == (ProcView {
                stack: old(self).stack@.subrange(0, old(self).stack@.len() - 2)
                    + be_bytes_u16(!top_u16(old(self).stack@)),
                ..old(self)@
            }),
    {
        let a = self.pop_u16();
        self.push_u16(!a);
        proof {
            assert(self.stack@ =~= old(self).stack@.subrange(
                0,
                old(self).stack@.len() - 2,
            ) + be_bytes_u16(!top_u16(old(self).stack@)));
        }
    }

    /// Bitwise complement on the two's complement reading.
    pub fn not_i16(&mut self)
        requires
            old(self).stack@.len() >= 2,
        ensures
            final(self)@ == (ProcView {
                stack: old(self).stack@.subrange(0, old(self).stack@.len() - 2)
                    + be_bytes_u16((!(top_u16(old(self).stack@) as i16)) as u16),
                ..old(self)@
            }),
    {
        let a = self.pop_u16() as i16;
        self.push_u16((!a) as u16);
        proof {
            assert(self.stack@ =~= old(self).stack@.subrange(
                0,
                old(self).stack@.len() - 2,
            ) + be_bytes_u16((!(top_u16(old(self).stack@) as i16)) as u16));
        }
    }

    /// Bitwise complement of the topmost 32-bit value.
    pub fn not_u32(&mut self)
        requires
            old(self).stack@.len() >= 4,
        ensures
            final(self)@ == (ProcView {
                stack: old(self).stack@.subrange(0, old(self).stack@.len() - 4)
                    + be_bytes_u32(!top_u32(old(self).stack@)),
                ..old(self)@
            }),
    {
        let a = self.pop_u32();
        self.push_u32(!a);
        proof {
            assert(self.stack@ =~= old(self).stack@.subrange(
                0,
                old(self).stack@.len() - 4,
            ) + be_bytes_u32(!top_u32(old(self).stack@)));
        }
    }

    /// Bitwise complement on the two's complement reading.
    pub fn not_i32(&mut self)
        requires
            old(self).stack@.len() >= 4,
        ensures
            final(self)@ == (ProcView {
                stack: old(self).stack@.subrange(0, old(self).stack@.len() - 4)
                    + be_bytes_u32((!(top_u32(old(self).stack@) as i32)) as u32),
                ..old(self)@
            }),
    {
        let a = self.pop_u32() as i32;
        self.push_u32((!a) as u32);
        proof {
            assert(self.stack@ =~= old(self).stack@.subrange(
                0,
                old(self).stack@.len() - 4,
            ) + be_bytes_u32((!(top_u32(old(self).stack@) as i32)) as u32));
        }
    }

    /// Bitwise complement of the topmost 64-bit value.
    pub fn not_u64(&mut self)
        requires
            old(self).stack@.len() >= 8,
        ensures
            final(self)@ == (ProcView {
                stack: old(self).stack@.subrange(0, old(self).stack@.len() - 8)
                    + be_bytes_u64(!top_u64(old(self).stack@)),
                ..old(self)@
            }),
    {
        let a = self.pop_u64();
        self.push_u64(!a);
        proof {
            assert(self.stack@ =~= old(self).stack@.subrange(
                0,
                old(self).stack@.len() - 8,
            ) + be_bytes_u64(!top_u64(old(self).stack@)));
        }
    }

    /// Bitwise complement on the two's complement reading.
    pub fn not_i64(&mut self)
        requires
            old(self).stack@.len() >= 8,
        ensures
            final(self)@ == (ProcView {
                stack: old(self).stack@.subrange(0, old(self).stack@.len() - 8)
                    + be_bytes_u64((!(top_u64(old(self).stack@) as i64)) as u64),
                ..old(self)@
            }),
    {
        let a = self.pop_u64() as i64;
        self.push_u64((!a) as u64);
        proof {
            assert(self.stack@ =~= old(self).stack@.subrange(
                0,
                old(self).stack@.len() - 8,
            ) + be_bytes_u64((!(top_u64(old(self).stack@) as i64)) as u64));
        }
    }

    /// Wrapping two's complement negation of the topmost 8-bit value.
    pub fn neg_u8(&mut self)
        requires
            old(self).stack@.len() >= 1,
        ensures
            final(self)@ == (ProcView {
                stack: old(self).stack@.subrange(0, old(self).stack@.len() - 1)
                    + seq![u8_specs::wrapping_sub(0u8, top_u8(old(self).stack@))],
                ..old(self)@
            }),
    {
        let a = self.pop_u8();
        self.push_u8(0u8.wrapping_sub(a));
        proof {
            assert(self.stack@ =~= old(self).stack@.subrange(
                0,
                old(self).stack@.len() - 1,
            ) + seq![u8_specs::wrapping_sub(0u8, top_u8(old(self).stack@))]);
        }
    }

    /// Wrapping negation on the two's complement reading.
    pub fn neg_i8(&mut self)
        requires
            old(self).stack@.len() >= 1,
        ensures
            final(self)@ == (ProcView {
                stack: old(self).stack@.subrange(0, old(self).stack@.len() - 1)
                    + seq![i8_specs::wrapping_sub(0i8, top_u8(old(self).stack@) as i8) as u8],
                ..old(self)@
            }),
    {
        let a = self.pop_u8() as i8;
        self.push_u8(0i8.wrapping_sub(a) as u8);
        proof {
            assert(self.stack@ =~= old(self).stack@.subrange(
                0,
                old(self).stack@.len() - 1,
            ) + seq![i8_specs::wrapping_sub(0i8, top_u8(old(self).stack@) as i8) as u8]);
        }
    }

    /// Wrapping two's complement negation of the topmost 16-bit value.
    pub fn neg_u16(&mut self)
        requires
            old(self).stack@.len() >= 2,
        ensures
            final(self)@ == (ProcView {
                stack: old(self).stack@.subrange(0, old(self).stack@.len() - 2)
                    + be_bytes_u16(u16_specs::wrapping_sub(0u16, top_u16(old(self).stack@))),
                ..old(self)@
            }),
    {
        let a = self.pop_u16();
        self.push_u16(0u16.wrapping_sub(a));
        proof {
            assert(self.stack@ =~= old(self).stack@.subrange(
                0,
                old(self).stack@.len() - 2,
            ) + be_bytes_u16(u16_specs::wrapping_sub(0u16, top_u16(old(self).stack@))));
        }
    }

    /// Wrapping negation on the two's complement reading.
    pub fn neg_i16(&mut self)
        requires
            old(self).stack@.len() >= 2,
        ensures
            final(self)@ == (ProcView {
                stack: old(self).stack@.subrange(0, old(self).stack@.len() - 2)
                    + be_bytes_u16(i16_specs::wrapping_sub(0i16, top_u16(old(self).stack@) as i16) as u16),
                ..old(self)@
            }),
    {
        let a = self.pop_u16() as i16;
        self.push_u16(0i16.wrapping_sub(a) as u16);
        proof {
            assert(self.stack@ =~= old(self).stack@.subrange(
                0,
                old(self).stack@.len() - 2,
            ) + be_bytes_u16(i16_specs::wrapping_sub(0i16, top_u16(old(self).stack@) as i16) as u16));
        }
    }

    /// Wrapping two's complement negation of the topmost 32-bit value.
    pub fn neg_u32(&mut self)
        requires
            old(self).stack@.len() >= 4,
        ensures
            final(self)@ == (ProcView {
                stack: old(self).stack@.subrange(0, old(self).stack@.len() - 4)
                    + be_bytes_u32(u32_specs::wrapping_sub(0u32, top_u32(old(self).stack@))),
                ..old(self)@
            }),
    {
        let a = self.pop_u32();
        self.push_u32(0u32.wrapping_sub(a));
        proof {
            assert(self.stack@ =~= old(self).stack@.subrange(
                0,
                old(self).stack@.len() - 4,
            ) + be_bytes_u32(u32_specs::wrapping_sub(0u32, top_u32(old(self).stack@))));
        }
    }

    /// Wrapping negation on the two's complement reading.
    pub fn neg_i32(&mut self)
        requires
            old(self).stack@.len() >= 4,
        ensures
            final(self)@ == (ProcView {
                stack: old(self).stack@.subrange(0, old(self).stack@.len() - 4)
                    + be_bytes_u32(i32_specs::wrapping_sub(0i32, top_u32(old(self).stack@) as i32) as u32),
                ..old(self)@
            }),
    {
        let a = self.pop_u32() as i32;
        self.push_u32(0i32.wrapping_sub(a) as u32);
        proof {
            assert(self.stack@ =~= old(self).stack@.subrange(
                0,
                old(self).stack@.len() - 4,
            ) + be_bytes_u32(i32_specs::wrapping_sub(0i32, top_u32(old(self).stack@) as i32) as u32));
        }
    }

    /// Wrapping two's complement negation of the topmost 64-bit value.
    pub fn neg_u64(&mut self)
        requires
            old(self).stack@.len() >= 8,
        ensures
            final(self)@ == (ProcView {
                stack: old(self).stack@.subrange(0, old(self).stack@.len() - 8)
                    + be_bytes_u64(u64_specs::wrapping_sub(0u64, top_u64(old(self).stack@))),
                ..old(self)@
            }),
    {
        let a = self.pop_u64();
        self.push_u64(0u64.wrapping_sub(a));
        proof {
            assert(self.stack@ =~= old(self).stack@.subrange(
                0,
                old(self).stack@.len() - 8,
            ) + be_bytes_u64(u64_specs::wrapping_sub(0u64, top_u64(old(self).stack@))));
        }
    }

    /// Wrapping negation on the two's complement reading.
    pub fn neg_i64(&mut self)
        requires
            old(self).stack@.len() >= 8,
        ensures
            final(self)@ == (ProcView {
                stack: old(self).stack@.subrange(0, old(self).stack@.len() - 8)
                    + be_bytes_u64(i64_specs::wrapping_sub(0i64, top_u64(old(self).stack@) as i64) as u64),
                ..old(self)@
            }),
    {
        let a = self.pop_u64() as i64;
        self.push_u64(0i64.wrapping_sub(a) as u64);
        proof {
            assert(self.stack@ =~= old(self).stack@.subrange(
                0,
                old(self).stack@.len() - 8,
            ) + be_bytes_u64(i64_specs::wrapping_sub(0i64, top_u64(old(self).stack@) as i64) as u64));
        }
    }

    /// Push `1` if the lower 8-bit value is less than the topmost, else `0`.
    pub fn lt_u8(&mut self)
        requires
            old(self).stack@.len() >= 2,
        ensures
            final(self)@ == (ProcView {
                stack: old(self).stack@.subrange(0, old(self).stack@.len() - 2)
                    + seq![(if second_u8(old(self).stack@) < top_u8(old(self).stack@) { 1u8 } else { 0u8 })],
                ..old(self)@
            }),
    {
        let b = self.pop_u8();
        let a = self.pop_u8();
        self.push_u8(if a < b { 1 } else { 0 });
        proof {
            assert(self.stack@ =~= old(self).stack@.subrange(
                0,
                old(self).stack@.len() - 2,
            ) + seq![(if second_u8(old(self).stack@) < top_u8(old(self).stack@) { 1u8 } else { 0u8 })]);
        }
    }

    /// Push `1` if the lower value is less than the topmost, comparing as two's complement, else `0`.
    pub fn lt_i8(&mut self)
        requires
            old(self).stack@.len() >= 2,
        ensures
            final(self)@ == (ProcView {
                stack: old(self).stack@.subrange(0, old(self).stack@.len() - 2)
                    + seq![(if (second_u8(old(self).stack@) as i8) < (top_u8(old(self).stack@) as i8) { 1u8 } else { 0u8 })],
                ..old(self)@
            }),
    {
        let b = self.pop_u8() as i8;
        let a = self.pop_u8() as i8;
        self.push_u8(if a < b { 1 } else { 0 });
        proof {
            assert(self.stack@ =~= old(self).stack@.subrange(
                0,
                old(self).stack@.len() - 2,
            ) + seq![(if (second_u8(old(self).stack@) as i8) < (top_u8(old(self).stack@) as i8) { 1u8 } else { 0u8 })]);
        }
    }

    /// Push `1` if the lower 16-bit value is less than the topmost, else `0`.
    pub fn lt_u16(&mut self)
        requires
            old(self).stack@.len() >= 4,
        ensures
            final(self)@ == (ProcView {
                stack: old(self).stack@.subrange(0, old(self).stack@.len() - 4)
                    + seq![(if second_u16(old(self).stack@) < top_u16(old(self).stack@) { 1u8 } else { 0u8 })],
                ..old(self)@
            }),
    {
        let b = self.pop_u16();
        let a = self.pop_u16();
        self.push_u8(if a < b { 1 } else { 0 });
        proof {
            assert(self.stack@ =~= old(self).stack@.subrange(
                0,
                old(self).stack@.len() - 4,
            ) + seq![(if second_u16(old(self).stack@) < top_u16(old(self).stack@) { 1u8 } else { 0u8 })]);
        }
    }

    /// Push `1` if the lower value is less than the topmost, comparing as two's complement, else `0`.
    pub fn lt_i16(&mut self)
        requires
            old(self).stack@.len() >= 4,
        ensures
            final(self)@ == (ProcView {
                stack: old(self).stack@.subrange(0, old(self).stack@.len() - 4)
                    + seq![(if (second_u16(old(self).stack@) as i16) < (top_u16(old(self).stack@) as i16) { 1u8 } else { 0u8 })],
                ..old(self)@
            }),
    {
        let b = self.pop_u16() as i16;
        let a = self.pop_u16() as i16;
        self.push_u8(if a < b { 1 } else { 0 });
        proof {
            assert(self.stack@ =~= old(self).stack@.subrange(
                0,
                old(self).stack@.len() - 4,
            ) + seq![(if (second_u16(old(self).stack@) as i16) < (top_u16(old(self).stack@) as i16) { 1u8 } else { 0u8 })]);
        }
    }

    /// Push `1` if the lower 32-bit value is less than the topmost, else `0`.
    pub fn lt_u32(&mut self)
        requires
            old(self).stack@.len() >= 8,
        ensures
            final(self)@ == (ProcView {
                stack: old(self).stack@.subrange(0, old(self).stack@.len() - 8)
                    + seq![(if second_u32(old(self).stack@) < top_u32(old(self).stack@) { 1u8 } else { 0u8 })],
                ..old(self)@
            }),
    {
        let b = self.pop_u32();
        let a = self.pop_u32();
        self.push_u8(if a < b { 1 } else { 0 });
        proof {
            assert(self.stack@ =~= old(self).stack@.subrange(
                0,
                old(self).stack@.len() - 8,
            ) + seq![(if second_u32(old(self).stack@) < top_u32(old(self).stack@) { 1u8 } else { 0u8 })]);
        }
    }

    /// Push `1` if the lower value is less than the topmost, comparing as two's complement, else `0`.
    pub fn lt_i32(&mut self)
        requires
            old(self).stack@.len() >= 8,
        ensures
            final(self)@ == (ProcView {
                stack: old(self).stack@.subrange(0, old(self).stack@.len() - 8)
                    + seq![(if (second_u32(old(self).stack@) as i32) < (top_u32(old(self).stack@) as i32) { 1u8 } else { 0u8 })],
                ..old(self)@
            }),
    {
        let b = self.pop_u32() as i32;
        let a = self.pop_u32() as i32;
        self.push_u8(if a < b { 1 } else { 0 });
        proof {
            assert(self.stack@ =~= old(self).stack@.subrange(
                0,
                old(self).stack@.len() - 8,
            ) + seq![(if (second_u32(old(self).stack@) as i32) < (top_u32(old(self).stack@) as i32) { 1u8 } else { 0u8 })]);
        }
    }

    /// Push `1` if the lower 64-bit value is less than the topmost, else `0`.
    pub fn lt_u64(&mut self)
        requires
            old(self).stack@.len() >= 16,
        ensures
            final(self)@ == (ProcView {
                stack: old(self).stack@.subrange(0, old(self).stack@.len() - 16)
                    + seq![(if second_u64(old(self).stack@) < top_u64(old(self).stack@) { 1u8 } else { 0u8 })],
                ..old(self)@
            }),
    {
        let b = self.pop_u64();
        let a = self.pop_u64();
        self.push_u8(if a < b { 1 } else { 0 });
        proof {
            assert(self.stack@ =~= old(self).stack@.subrange(
                0,
                old(self).stack@.len() - 16,
            ) + seq![(if second_u64(old(self).stack@) < top_u64(old(self).stack@) { 1u8 } else { 0u8 })]);
        }
    }

    /// Push `1` if the lower value is less than the topmost, comparing as two's complement, else `0`.
    pub fn lt_i64(&mut self)
        requires
            old(self).stack@.len() >= 16,
        ensures
            final(self)@ == (ProcView {
                stack: old(self).stack@.subrange(0, old(self).stack@.len() - 16)
                    + seq![(if (second_u64(old(self).stack@) as i64) < (top_u64(old(self).stack@) as i64) { 1u8 } else { 0u8 })],
                ..old(self)@
            }),
    {
        let b = self.pop_u64() as i64;
        let a = self.pop_u64() as i64;
        self.push_u8(if a < b { 1 } else { 0 });
        proof {
            assert(self.stack@ =~= old(self).stack@.subrange(
                0,
                old(self).stack@.len() - 16,
            ) + seq![(if (second_u64(old(self).stack@) as i64) < (top_u64(old(self).stack@) as i64) { 1u8 } else { 0u8 })]);
        }
    }

    /// Push `1` if the lower 8-bit value is at most the topmost, else `0`.
    pub fn lte_u8(&mut self)
        requires
            old(self).stack@.len() >= 2,
        ensures
            final(self)@ == (ProcView {
                stack: old(self).stack@.subrange(0, old(self).stack@.len() - 2)
                    + seq![(if second_u8(old(self).stack@) <= top_u8(old(self).stack@) { 1u8 } else { 0u8 })],
                ..old(self)@
            }),
    {
        let b = self.pop_u8();
        let a = self.pop_u8();
        self.push_u8(if a <= b { 1 } else { 0 });
        proof {
            assert(self.stack@ =~= old(self).stack@.subrange(
                0,
                old(self).stack@.len() - 2,
            ) + seq![(if second_u8(old(self).stack@) <= top_u8(old(self).stack@) { 1u8 } else { 0u8 })]);
        }
    }

    /// Push `1` if the lower value is at most the topmost, comparing as two's complement, else `0`.
    pub fn lte_i8(&mut self)
        requires
            old(self).stack@.len() >= 2,
        ensures
            final(self)@ == (ProcView {
                stack: old(self).stack@.subrange(0, old(self).stack@.len() - 2)
                    + seq![(if (second_u8(old(self).stack@) as i8) <= (top_u8(old(self).stack@) as i8) { 1u8 } else { 0u8 })],
                ..old(self)@
            }),
    {
        let b = self.pop_u8() as i8;
        let a = self.pop_u8() as i8;
        self.push_u8(if a <= b { 1 } else { 0 });
        proof {
            assert(self.stack@ =~= old(self).stack@.subrange(
                0,
                old(self).stack@.len() - 2,
            ) + seq![(if (second_u8(old(self).stack@) as i8) <= (top_u8(old(self).stack@) as i8) { 1u8 } else { 0u8 })]);
        }
    }

    /// Push `1` if the lower 16-bit value is at most the topmost, else `0`.
    pub fn lte_u16(&mut self)
        requires
            old(self).stack@.len() >= 4,
        ensures
            final(self)@ == (ProcView {
                stack: old(self).stack@.subrange(0, old(self).stack@.len() - 4)
                    + seq![(if second_u16(old(self).stack@) <= top_u16(old(self).stack@) { 1u8 } else { 0u8 })],
                ..old(self)@
            }),
    {
        let b = self.pop_u16();
        let a = self.pop_u16();
        self.push_u8(if a <= b { 1 } else { 0 });
        proof {
            assert(self.stack@ =~= old(self).stack@.subrange(
                0,
                old(self).stack@.len() - 4,
            ) + seq![(if second_u16(old(self).stack@) <= top_u16(old(self).stack@) { 1u8 } else { 0u8 })]);
        }
    }

    /// Push `1` if the lower value is at most the topmost, comparing as two's complement, else `0`.
    pub fn lte_i16(&mut self)
        requires
            old(self).stack@.len() >= 4,
        ensures
            final(self)@ == (ProcView {
                stack: old(self).stack@.subrange(0, old(self).stack@.len() - 4)
                    + seq![(if (second_u16(old(self).stack@) as i16) <= (top_u16(old(self).stack@) as i16) { 1u8 } else { 0u8 })],
                ..old(self)@
            }),
    {
        let b = self.pop_u16() as i16;
        let a = self.pop_u16() as i16;
        self.push_u8(if a <= b { 1 } else { 0 });
        proof {
            assert(self.stack@ =~= old(self).stack@.subrange(
                0,
                old(self).stack@.len() - 4,
            ) + seq![(if (second_u16(old(self).stack@) as i16) <= (top_u16(old(self).stack@) as i16) { 1u8 } else { 0u8 })]);
        }
    }

    /// Push `1` if the lower 32-bit value is at most the topmost, else `0`.
    pub fn lte_u32(&mut self)
        requires
            old(self).stack@.len() >= 8,
        ensures
            final(self)@ == (ProcView {
                stack: old(self).stack@.subrange(0, old(self).stack@.len() - 8)
                    + seq![(if second_u32(old(self).stack@) <= top_u32(old(self).stack@) { 1u8 } else { 0u8 })],
                ..old(self)@
            }),
    {
        let b = self.pop_u32();
        let a = self.pop_u32();
        self.push_u8(if a <= b { 1 } else { 0 });
        proof {
            assert(self.stack@ =~= old(self).stack@.subrange(
                0,
                old(self).stack@.len() - 8,
            ) + seq![(if second_u32(old(self).stack@) <= top_u32(old(self).stack@) { 1u8 } else { 0u8 })]);
        }
    }

    /// Push `1` if the lower value is at most the topmost, comparing as two's complement, else `0`.
    pub fn lte_i32(&mut self)
        requires
            old(self).stack@.len() >= 8,
        ensures
            final(self)@ == (ProcView {
                stack: old(self).stack@.subrange(0, old(self).stack@.len() - 8)
                    + seq![(if (second_u32(old(self).stack@) as i32) <= (top_u32(old(self).stack@) as i32) { 1u8 } else { 0u8 })],
                ..old(self)@
            }),
    {
        let b = self.pop_u32() as i32;
        let a = self.pop_u32() as i32;
        self.push_u8(if a <= b { 1 } else { 0 });
        proof {
            assert(self.stack@ =~= old(self).stack@.subrange(
                0,
                old(self).stack@.len() - 8,
            ) + seq![(if (second_u32(old(self).stack@) as i32) <= (top_u32(old(self).stack@) as i32) { 1u8 } else { 0u8 })]);
        }
    }

    /// Push `1` if the lower 64-bit value is at most the topmost, else `0`.
    pub fn lte_u64(&mut self)
        requires
            old(self).stack@.len() >= 16,
        ensures
            final(self)@ == (ProcView {
                stack: old(self).stack@.subrange(0, old(self).stack@.len() - 16)
                    + seq![(if second_u64(old(self).stack@) <= top_u64(old(self).stack@) { 1u8 } else { 0u8 })],
                ..old(self)@
            }),
    {
        let b = self.pop_u64();
        let a = self.pop_u64();
        self.push_u8(if a <= b { 1 } else { 0 });
        proof {
            assert(self.stack@ =~= old(self).stack@.subrange(
                0,
                old(self).stack@.len() - 16,
            ) + seq![(if second_u64(old(self).stack@) <= top_u64(old(self).stack@) { 1u8 } else { 0u8 })]);
        }
    }

    /// Push `1` if the lower value is at most the topmost, comparing as two's complement, else `0`.
    pub fn lte_i64(&mut self)
        requires
            old(self).stack@.len() >= 16,
        ensures
            final(self)@ == (ProcView {
                stack: old(self).stack@.subrange(0, old(self).stack@.len() - 16)
                    + seq![(if (second_u64(old(self).stack@) as i64) <= (top_u64(old(self).stack@) as i64) { 1u8 } else { 0u8 })],
                ..old(self)@
            }),
    {
        let b = self.pop_u64() as i64;
        let a = self.pop_u64() as i64;
        self.push_u8(if a <= b { 1 } else { 0 });
        proof {
            assert(self.stack@ =~= old(self).stack@.subrange(
                0,
                old(self).stack@.len() - 16,
            ) + seq![(if (second_u64(old(self).stack@) as i64) <= (top_u64(old(self).stack@) as i64) { 1u8 } else { 0u8 })]);
        }
    }

    /// Push `1` if the lower 8-bit value is greater than the topmost, else `0`.
    pub fn gt_u8(&mut self)
        requires
            old(self).stack@.len() >= 2,
        ensures
            final(self)@ == (ProcView {
                stack: old(self).stack@.subrange(0, old(self).stack@.len() - 2)
                    + seq![(if second_u8(old(self).stack@) > top_u8(old(self).stack@) { 1u8 } else { 0u8 })],
                ..old(self)@
            }),
    {
        let b = self.pop_u8();
        let a = self.pop_u8();
        self.push_u8(if a > b { 1 } else { 0 });
        proof {
            assert(self.stack@ =~= old(self).stack@.subrange(
                0,
                old(self).stack@.len() - 2,
            ) + seq![(if second_u8(old(self).stack@) > top_u8(old(self).stack@) { 1u8 } else { 0u8 })]);
        }
    }

    /// Push `1` if the lower value is greater than the topmost, comparing as two's complement, else `0`.
    pub fn gt_i8(&mut self)
        requires
            old(self).stack@.len() >= 2,
        ensures
            final(self)@ == (ProcView {
                stack: old(self).stack@.subrange(0, old(self).stack@.len() - 2)
                    + seq![(if (second_u8(old(self).stack@) as i8) > (top_u8(old(self).stack@) as i8) { 1u8 } else { 0u8 })],
                ..old(self)@
            }),
    {
        let b = self.pop_u8() as i8;
        let a = self.pop_u8() as i8;
        self.push_u8(if a > b { 1 } else { 0 });
        proof {
            assert(self.stack@ =~= old(self).stack@.subrange(
                0,
                old(self).stack@.len() - 2,
            ) + seq![(if (second_u8(old(self).stack@) as i8) > (top_u8(old(self).stack@) as i8) { 1u8 } else { 0u8 })]);
        }
    }

    /// Push `1` if the lower 16-bit value is greater than the topmost, else `0`.
    pub fn gt_u16(&mut self)
        requires
            old(self).stack@.len() >= 4,
        ensures
            final(self)@ == (ProcView {
                stack: old(self).stack@.subrange(0, old(self).stack@.len() - 4)
                    + seq![(if second_u16(old(self).stack@) > top_u16(old(self).stack@) { 1u8 } else { 0u8 })],
                ..old(self)@
            }),
    {
        let b = self.pop_u16();
        let a = self.pop_u16();
        self.push_u8(if a > b { 1 } else { 0 });
        proof {
            assert(self.stack@ =~= old(self).stack@.subrange(
                0,
                old(self).stack@.len() - 4,
            ) + seq![(if second_u16(old(self).stack@) > top_u16(old(self).stack@) { 1u8 } else { 0u8 })]);
        }
    }

    /// Push `1` if the lower value is greater than the topmost, comparing as two's complement, else `0`.
    pub fn gt_i16(&mut self)
        requires
            old(self).stack@.len() >= 4,
        ensures
            final(self)@ == (ProcView {
                stack: old(self).stack@.subrange(0, old(self).stack@.len() - 4)
                    + seq![(if (second_u16(old(self).stack@) as i16) > (top_u16(old(self).stack@) as i16) { 1u8 } else { 0u8 })],
                ..old(self)@
            }),
    {
        let b = self.pop_u16() as i16;
        let a = self.pop_u16() as i16;
        self.push_u8(if a > b { 1 } else { 0 });
        proof {
            assert(self.stack@ =~= old(self).stack@.subrange(
                0,
                old(self).stack@.len() - 4,
            ) + seq![(if (second_u16(old(self).stack@) as i16) > (top_u16(old(self).stack@) as i16) { 1u8 } else { 0u8 })]);
        }
    }

    /// Push `1` if the lower 32-bit value is greater than the topmost, else `0`.
    pub fn gt_u32(&mut self)
        requires
            old(self).stack@.len() >= 8,
        ensures
            final(self)@ == (ProcView {
                stack: old(self).stack@.subrange(0, old(self).stack@.len() - 8)
                    + seq![(if second_u32(old(self).stack@) > top_u32(old(self).stack@) { 1u8 } else { 0u8 })],
                ..old(self)@
            }),
    {
        let b = self.pop_u32();
        let a = self.pop_u32();
        self.push_u8(if a > b { 1 } else { 0 });
        proof {
            assert(self.stack@ =~= old(self).stack@.subrange(
                0,
                old(self).stack@.len() - 8,
            ) + seq![(if second_u32(old(self).stack@) > top_u32(old(self).stack@) { 1u8 } else { 0u8 })]);
        }
    }

    /// Push `1` if the lower value is greater than the topmost, comparing as two's complement, else `0`.
    pub fn gt_i32(&mut self)
        requires
            old(self).stack@.len() >= 8,
        ensures
            final(self)@ == (ProcView {
                stack: old(self).stack@.subrange(0, old(self).stack@.len() - 8)
                    + seq![(if (second_u32(old(self).stack@) as i32) > (top_u32(old(self).stack@) as i32) { 1u8 } else { 0u8 })],
                ..old(self)@
            }),
    {
        let b = self.pop_u32() as i32;
        let a = self.pop_u32() as i32;
        self.push_u8(if a > b { 1 } else { 0 });
        proof {
            assert(self.stack@ =~= old(self).stack@.subrange(
                0,
                old(self).stack@.len() - 8,
            ) + seq![(if (second_u32(old(self).stack@) as i32) > (top_u32(old(self).stack@) as i32) { 1u8 } else { 0u8 })]);
        }
    }

    /// Push `1` if the lower 64-bit value is greater than the topmost, else `0`.
    pub fn gt_u64(&mut self)
        requires
            old(self).stack@.len() >= 16,
        ensures
            final(self)@ == (ProcView {
                stack: old(self).stack@.subrange(0, old(self).stack@.len() - 16)
                    + seq![(if second_u64(old(self).stack@) > top_u64(old(self).stack@) { 1u8 } else { 0u8 })],
                ..old(self)@
            }),
    {
        let b = self.pop_u64();
        let a = self.pop_u64();
        self.push_u8(if a > b { 1 } else { 0 });
        proof {
            assert(self.stack@ =~= old(self).stack@.subrange(
                0,
                old(self).stack@.len() - 16,
            ) + seq![(if second_u64(old(self).stack@) > top_u64(old(self).stack@) { 1u8 } else { 0u8 })]);
        }
    }

    /// Push `1` if the lower value is greater than the topmost, comparing as two's complement, else `0`.
    pub fn gt_i64(&mut self)
        requires
            old(self).stack@.len() >= 16,
        ensures
            final(self)@ == (ProcView {
                stack: old(self).stack@.subrange(0, old(self).stack@.len() - 16)
                    + seq![(if (second_u64(old(self).stack@) as i64) > (top_u64(old(self).stack@) as i64) { 1u8 } else { 0u8 })],
                ..old(self)@
            }),
    {
        let b = self.pop_u64() as i64;
        let a = self.pop_u64() as i64;
        self.push_u8(if a > b { 1 } else { 0 });
        proof {
            assert(self.stack@ =~= old(self).stack@.subrange(
                0,
                old(self).stack@.len() - 16,
            ) + seq![(if (second_u64(old(self).stack@) as i64) > (top_u64(old(self).stack@) as i64) { 1u8 } else { 0u8 })]);
        }
    }

    /// Push `1` if the lower 8-bit value is at least the topmost, else `0`.
    pub fn gte_u8(&mut self)
        requires
            old(self).stack@.len() >= 2,
        ensures
            final(self)@ == (ProcView {
                stack: old(self).stack@.subrange(0, old(self).stack@.len() - 2)
                    + seq![(if second_u8(old(self).stack@) >= top_u8(old(self).stack@) { 1u8 } else { 0u8 })],
                ..old(self)@
            }),
    {
        let b = self.pop_u8();
        let a = self.pop_u8();
        self.push_u8(if a >= b { 1 } else { 0 });
        proof {
            assert(self.stack@ =~= old(self).stack@.subrange(
                0,
                old(self).stack@.len() - 2,
            ) + seq![(if second_u8(old(self).stack@) >= top_u8(old(self).stack@) { 1u8 } else { 0u8 })]);
        }
    }

    /// Push `1` if the lower value is at least the topmost, comparing as two's complement, else `0`.
    pub fn gte_i8(&mut self)
        requires
            old(self).stack@.len() >= 2,
        ensures
            final(self)@ == (ProcView {
                stack: old(self).stack@.subrange(0, old(self).stack@.len() - 2)
                    + seq![(if (second_u8(old(self).stack@) as i8) >= (top_u8(old(self).stack@) as i8) { 1u8 } else { 0u8 })],
                ..old(self)@
            }),
    {
        let b = self.pop_u8() as i8;
        let a = self.pop_u8() as i8;
        self.push_u8(if a >= b { 1 } else { 0 });
        proof {
            assert(self.stack@ =~= old(self).stack@.subrange(
                0,
                old(self).stack@.len() - 2,
            ) + seq![(if (second_u8(old(self).stack@) as i8) >= (top_u8(old(self).stack@) as i8) { 1u8 } else { 0u8 })]);
        }
    }

    /// Push `1` if the lower 16-bit value is at least the topmost, else `0`.
    pub fn gte_u16(&mut self)
        requires
            old(self).stack@.len() >= 4,
        ensures
            final(self)@ == (ProcView {
                stack: old(self).stack@.subrange(0, old(self).stack@.len() - 4)
                    + seq![(if second_u16(old(self).stack@) >= top_u16(old(self).stack@) { 1u8 } else { 0u8 })],
                ..old(self)@
            }),
    {
        let b = self.pop_u16();
        let a = self.pop_u16();
        self.push_u8(if a >= b { 1 } else { 0 });
        proof {
            assert(self.stack@ =~= old(self).stack@.subrange(
                0,
                old(self).stack@.len() - 4,
            ) + seq![(if second_u16(old(self).stack@) >= top_u16(old(self).stack@) { 1u8 } else { 0u8 })]);
        }
    }

    /// Push `1` if the lower value is at least the topmost, comparing as two's complement, else `0`.
    pub fn gte_i16(&mut self)
        requires
            old(self).stack@.len() >= 4,
        ensures
            final(self)@ == (ProcView {
                stack: old(self).stack@.subrange(0, old(self).stack@.len() - 4)
                    + seq![(if (second_u16(old(self).stack@) as i16) >= (top_u16(old(self).stack@) as i16) { 1u8 } else { 0u8 })],
                ..old(self)@
            }),
    {
        let b = self.pop_u16() as i16;
        let a = self.pop_u16() as i16;
        self.push_u8(if a >= b { 1 } else { 0 });
        proof {
            assert(self.stack@ =~= old(self).stack@.subrange(
                0,
                old(self).stack@.len() - 4,
            ) + seq![(if (second_u16(old(self).stack@) as i16) >= (top_u16(old(self).stack@) as i16) { 1u8 } else { 0u8 })]);
        }
    }

    /// Push `1` if the lower 32-bit value is at least the topmost, else `0`.
    pub fn gte_u32(&mut self)
        requires
            old(self).stack@.len() >= 8,
        ensures
            final(self)@ == (ProcView {
                stack: old(self).stack@.subrange(0, old(self).stack@.len() - 8)
                    + seq![(if second_u32(old(self).stack@) >= top_u32(old(self).stack@) { 1u8 } else { 0u8 })],
                ..old(self)@
            }),
    {
        let b = self.pop_u32();
        let a = self.pop_u32();
        self.push_u8(if a >= b { 1 } else { 0 });
        proof {
            assert(self.stack@ =~= old(self).stack@.subrange(
                0,
                old(self).stack@.len() - 8,
            ) + seq![(if second_u32(old(self).stack@) >= top_u32(old(self).stack@) { 1u8 } else { 0u8 })]);
        }
    }

    /// Push `1` if the lower value is at least the topmost, comparing as two's complement, else `0`.
    pub fn gte_i32(&mut self)
        requires
            old(self).stack@.len() >= 8,
        ensures
            final(self)@ == (ProcView {
                stack: old(self).stack@.subrange(0, old(self).stack@.len() - 8)
                    + seq![(if (second_u32(old(self).stack@) as i32) >= (top_u32(old(self).stack@) as i32) { 1u8 } else { 0u8 })],
                ..old(self)@
            }),
    {
        let b = self.pop_u32() as i32;
        let a = self.pop_u32() as i32;
        self.push_u8(if a >= b { 1 } else { 0 });
        proof {
            assert(self.stack@ =~= old(self).stack@.subrange(
                0,
                old(self).stack@.len() - 8,
            ) + seq![(if (second_u32(old(self).stack@) as i32) >= (top_u32(old(self).stack@) as i32) { 1u8 } else { 0u8 })]);
        }
    }

    /// Push `1` if the lower 64-bit value is at least the topmost, else `0`.
    pub fn gte_u64(&mut self)
        requires
            old(self).stack@.len() >= 16,
        ensures
            final(self)@ == (ProcView {
                stack: old(self).stack@.subrange(0, old(self).stack@.len() - 16)
                    + seq![(if second_u64(old(self).stack@) >= top_u64(old(self).stack@) { 1u8 } else { 0u8 })],
                ..old(self)@
            }),
    {
        let b = self.pop_u64();
        let a = self.pop_u64();
        self.push_u8(if a >= b { 1 } else { 0 });
        proof {
            assert(self.stack@ =~= old(self).stack@.subrange(
                0,
                old(self).stack@.len() - 16,
            ) + seq![(if second_u64(old(self).stack@) >= top_u64(old(self).stack@) { 1u8 } else { 0u8 })]);
        }
    }

    /// Push `1` if the lower value is at least the topmost, comparing as two's complement, else `0`.
    pub fn gte_i64(&mut self)
        requires
            old(self).stack@.len() >= 16,
        ensures
            final(self)@ == (ProcView {
                stack: old(self).stack@.subrange(0, old(self).stack@.len() - 16)
                    + seq![(if (second_u64(old(self).stack@) as i64) >= (top_u64(old(self).stack@) as i64) { 1u8 } else { 0u8 })],
                ..old(self)@
            }),
    {
        let b = self.pop_u64() as i64;
        let a = self.pop_u64() as i64;
        self.push_u8(if a >= b { 1 } else { 0 });
        proof {
            assert(self.stack@ =~= old(self).stack@.subrange(
                0,
                old(self).stack@.len() - 16,
            ) + seq![(if (second_u64(old(self).stack@) as i64) >= (top_u64(old(self).stack@) as i64) { 1u8 } else { 0u8 })]);
        }
    }

    /// Push `1` if the lower 8-bit value is equal to the topmost, else `0`.
    pub fn eq_u8(&mut self)
        requires
            old(self).stack@.len() >= 2,
        ensures
            final(self)@ == (ProcView {
                stack: old(self).stack@.subrange(0, old(self).stack@.len() - 2)
                    + seq![(if second_u8(old(self).stack@) == top_u8(old(self).stack@) { 1u8 } else { 0u8 })],
                ..old(self)@
            }),
    {
        let b = self.pop_u8();
        let a = self.pop_u8();
        self.push_u8(if a == b { 1 } else { 0 });
        proof {
            assert(self.stack@ =~= old(self).stack@.subrange(
                0,
                old(self).stack@.len() - 2,
            ) + seq![(if second_u8(old(self).stack@) == top_u8(old(self).stack@) { 1u8 } else { 0u8 })]);
        }
    }

    /// Push `1` if the lower value is equal to the topmost, comparing as two's complement, else `0`.
    pub fn eq_i8(&mut self)
        requires
            old(self).stack@.len() >= 2,
        ensures
            final(self)@ == (ProcView {
                stack: old(self).stack@.subrange(0, old(self).stack@.len() - 2)
                    + seq![(if (second_u8(old(self).stack@) as i8) == (top_u8(old(self).stack@) as i8) { 1u8 } else { 0u8 })],
                ..old(self)@
            }),
    {
        let b = self.pop_u8() as i8;
        let a = self.pop_u8() as i8;
        self.push_u8(if a == b { 1 } else { 0 });
        proof {
            assert(self.stack@ =~= old(self).stack@.subrange(
                0,
                old(self).stack@.len() - 2,
            ) + seq![(if (second_u8(old(self).stack@) as i8) == (top_u8(old(self).stack@) as i8) { 1u8 } else { 0u8 })]);
        }
    }

    /// Push `1` if the lower 16-bit value is equal to the topmost, else `0`.
    pub fn eq_u16(&mut self)
        requires
            old(self).stack@.len() >= 4,
        ensures
            final(self)@ == (ProcView {
                stack: old(self).stack@.subrange(0, old(self).stack@.len() - 4)
                    + seq![(if second_u16(old(self).stack@) == top_u16(old(self).stack@) { 1u8 } else { 0u8 })],
                ..old(self)@
            }),
    {
        let b = self.pop_u16();
        let a = self.pop_u16();
        self.push_u8(if a == b { 1 } else { 0 });
        proof {
            assert(self.stack@ =~= old(self).stack@.subrange(
                0,
                old(self).stack@.len() - 4,
            ) + seq![(if second_u16(old(self).stack@) == top_u16(old(self).stack@) { 1u8 } else { 0u8 })]);
        }
    }

    /// Push `1` if the lower value is equal to the topmost, comparing as two's complement, else `0`.
    pub fn eq_i16(&mut self)
        requires
            old(self).stack@.len() >= 4,
        ensures
            final(self)@ == (ProcView {
                stack: old(self).stack@.subrange(0, old(self).stack@.len() - 4)
                    + seq![(if (second_u16(old(self).stack@) as i16) == (top_u16(old(self).stack@) as i16) { 1u8 } else { 0u8 })],
                ..old(self)@
            }),
    {
        let b = self.pop_u16() as i16;
        let a = self.pop_u16() as i16;
        self.push_u8(if a == b { 1 } else { 0 });
        proof {
            assert(self.stack@ =~= old(self).stack@.subrange(
                0,
                old(self).stack@.len() - 4,
            ) + seq![(if (second_u16(old(self).stack@) as i16) == (top_u16(old(self).stack@) as i16) { 1u8 } else { 0u8 })]);
        }
    }

    /// Push `1` if the lower 32-bit value is equal to the topmost, else `0`.
    pub fn eq_u32(&mut self)
        requires
            old(self).stack@.len() >= 8,
        ensures
            final(self)@ == (ProcView {
                stack: old(self).stack@.subrange(0, old(self).stack@.len() - 8)
                    + seq![(if second_u32(old(self).stack@) == top_u32(old(self).stack@) { 1u8 } else { 0u8 })],
                ..old(self)@
            }),
    {
        let b = self.pop_u32();
        let a = self.pop_u32();
        self.push_u8(if a == b { 1 } else { 0 });
        proof {
            assert(self.stack@ =~= old(self).stack@.subrange(
                0,
                old(self).stack@.len() - 8,
            ) + seq![(if second_u32(old(self).stack@) == top_u32(old(self).stack@) { 1u8 } else { 0u8 })]);
        }
    }

    /// Push `1` if the lower value is equal to the topmost, comparing as two's complement, else `0`.
    pub fn eq_i32(&mut self)
        requires
            old(self).stack@.len() >= 8,
        ensures
            final(self)@ == (ProcView {
                stack: old(self).stack@.subrange(0, old(self).stack@.len() - 8)
                    + seq![(if (second_u32(old(self).stack@) as i32) == (top_u32(old(self).stack@) as i32) { 1u8 } else { 0u8 })],
                ..old(self)@
            }),
    {
        let b = self.pop_u32() as i32;
        let a = self.pop_u32() as i32;
        self.push_u8(if a == b { 1 } else { 0 });
        proof {
            assert(self.stack@ =~= old(self).stack@.subrange(
                0,
                old(self).stack@.len() - 8,
            ) + seq![(if (second_u32(old(self).stack@) as i32) == (top_u32(old(self).stack@) as i32) { 1u8 } else { 0u8 })]);
        }
    }

    /// Push `1` if the lower 64-bit value is equal to the topmost, else `0`.
    pub fn eq_u64(&mut self)
        requires
            old(self).stack@.len() >= 16,
        ensures
            final(self)@ == (ProcView {
                stack: old(self).stack@.subrange(0, old(self).stack@.len() - 16)
                    + seq![(if second_u64(old(self).stack@) == top_u64(old(self).stack@) { 1u8 } else { 0u8 })],
                ..old(self)@
            }),
    {
        let b = self.pop_u64();
        let a = self.pop_u64();
        self.push_u8(if a == b { 1 } else { 0 });
        proof {
            assert(self.stack@ =~= old(self).stack@.subrange(
                0,
                old(self).stack@.len() - 16,
            ) + seq![(if second_u64(old(self).stack@) == top_u64(old(self).stack@) { 1u8 } else { 0u8 })]);
        }
    }

    /// Push `1` if the lower value is equal to the topmost, comparing as two's complement, else `0`.
    pub fn eq_i64(&mut self)
        requires
            old(self).stack@.len() >= 16,
        ensures
            final(self)@ == (ProcView {
                stack: old(self).stack@.subrange(0, old(self).stack@.len() - 16)
                    + seq![(if (second_u64(old(self).stack@) as i64) == (top_u64(old(self).stack@) as i64) { 1u8 } else { 0u8 })],
                ..old(self)@
            }),
    {
        let b = self.pop_u64() as i64;
        let a = self.pop_u64() as i64;
        self.push_u8(if a == b { 1 } else { 0 });
        proof {
            assert(self.stack@ =~= old(self).stack@.subrange(
                0,
                old(self).stack@.len() - 16,
            ) + seq![(if (second_u64(old(self).stack@) as i64) == (top_u64(old(self).stack@) as i64) { 1u8 } else { 0u8 })]);
        }
    }

    /// Push `1` if the lower 8-bit value is unequal to the topmost, else `0`.
    pub fn neq_u8(&mut self)
        requires
            old(self).stack@.len() >= 2,
        ensures
            final(self)@ == (ProcView {
                stack: old(self).stack@.subrange(0, old(self).stack@.len() - 2)
                    + seq![(if second_u8(old(self).stack@) != top_u8(old(self).stack@) { 1u8 } else { 0u8 })],
                ..old(self)@
            }),
    {
        let b = self.pop_u8();
        let a = self.pop_u8();
        self.push_u8(if a != b { 1 } else { 0 });
        proof {
            assert(self.stack@ =~= old(self).stack@.subrange(
                0,
                old(self).stack@.len() - 2,
            ) + seq![(if second_u8(old(self).stack@) != top_u8(old(self).stack@) { 1u8 } else { 0u8 })]);
        }
    }

    /// Push `1` if the lower value is unequal to the topmost, comparing as two's complement, else `0`.
    pub fn neq_i8(&mut self)
        requires
            old(self).stack@.len() >= 2,
        ensures
            final(self)@ == (ProcView {
                stack: old(self).stack@.subrange(0, old(self).stack@.len() - 2)
                    + seq![(if (second_u8(old(self).stack@) as i8) != (top_u8(old(self).stack@) as i8) { 1u8 } else { 0u8 })],
                ..old(self)@
            }),
    {
        let b = self.pop_u8() as i8;
        let a = self.pop_u8() as i8;
        self.push_u8(if a != b { 1 } else { 0 });
        proof {
            assert(self.stack@ =~= old(self).stack@.subrange(
                0,
                old(self).stack@.len() - 2,
            ) + seq![(if (second_u8(old(self).stack@) as i8) != (top_u8(old(self).stack@) as i8) { 1u8 } else { 0u8 })]);
        }
    }

    /// Push `1` if the lower 16-bit value is unequal to the topmost, else `0`.
    pub fn neq_u16(&mut self)
        requires
            old(self).stack@.len() >= 4,
        ensures
            final(self)@ == (ProcView {
                stack: old(self).stack@.subrange(0, old(self).stack@.len() - 4)
                    + seq![(if second_u16(old(self).stack@) != top_u16(old(self).stack@) { 1u8 } else { 0u8 })],
                ..old(self)@
            }),
    {
        let b = self.pop_u16();
        let a = self.pop_u16();
        self.push_u8(if a != b { 1 } else { 0 });
        proof {
            assert(self.stack@ =~= old(self).stack@.subrange(
                0,
                old(self).stack@.len() - 4,
            ) + seq![(if second_u16(old(self).stack@) != top_u16(old(self).stack@) { 1u8 } else { 0u8 })]);
        }
    }

    /// Push `1` if the lower value is unequal to the topmost, comparing as two's complement, else `0`.
    pub fn neq_i16(&mut self)
        requires
            old(self).stack@.len() >= 4,
        ensures
            final(self)@ == (ProcView {
                stack: old(self).stack@.subrange(0, old(self).stack@.len() - 4)
                    + seq![(if (second_u16(old(self).stack@) as i16) != (top_u16(old(self).stack@) as i16) { 1u8 } else { 0u8 })],
                ..old(self)@
            }),
    {
        let b = self.pop_u16() as i16;
        let a = self.pop_u16() as i16;
        self.push_u8(if a != b { 1 } else { 0 });
        proof {
            assert(self.stack@ =~= old(self).stack@.subrange(
                0,
                old(self).stack@.len() - 4,
            ) + seq![(if (second_u16(old(self).stack@) as i16) != (top_u16(old(self).stack@) as i16) { 1u8 } else { 0u8 })]);
        }
    }

    /// Push `1` if the lower 32-bit value is unequal to the topmost, else `0`.
    pub fn neq_u32(&mut self)
        requires
            old(self).stack@.len() >= 8,
        ensures
            final(self)@ == (ProcView {
                stack: old(self).stack@.subrange(0, old(self).stack@.len() - 8)
                    + seq![(if second_u32(old(self).stack@) != top_u32(old(self).stack@) { 1u8 } else { 0u8 })],
                ..old(self)@
            }),
    {
        let b = self.pop_u32();
        let a = self.pop_u32();
        self.push_u8(if a != b { 1 } else { 0 });
        proof {
            assert(self.stack@ =~= old(self).stack@.subrange(
                0,
                old(self).stack@.len() - 8,
            ) + seq![(if second_u32(old(self).stack@) != top_u32(old(self).stack@) { 1u8 } else { 0u8 })]);
        }
    }

    /// Push `1` if the lower value is unequal to the topmost, comparing as two's complement, else `0`.
    pub fn neq_i32(&mut self)
        requires
            old(self).stack@.len() >= 8,
        ensures
            final(self)@ == (ProcView {
                stack: old(self).stack@.subrange(0, old(self).stack@.len() - 8)
                    + seq![(if (second_u32(old(self).stack@) as i32) != (top_u32(old(self).stack@) as i32) { 1u8 } else { 0u8 })],
                ..old(self)@
            }),
    {
        let b = self.pop_u32() as i32;
        let a = self.pop_u32() as i32;
        self.push_u8(if a != b { 1 } else { 0 });
        proof {
            assert(self.stack@ =~= old(self).stack@.subrange(
                0,
                old(self).stack@.len() - 8,
            ) + seq![(if (second_u32(old(self).stack@) as i32) != (top_u32(old(self).stack@) as i32) { 1u8 } else { 0u8 })]);
        }
    }

    /// Push `1` if the lower 64-bit value is unequal to the topmost, else `0`.
    pub fn neq_u64(&mut self)
        requires
            old(self).stack@.len() >= 16,
        ensures
            final(self)@ == (ProcView {
                stack: old(self).stack@.subrange(0, old(self).stack@.len() - 16)
                    + seq![(if second_u64(old(self).stack@) != top_u64(old(self).stack@) { 1u8 } else { 0u8 })],
                ..old(self)@
            }),
    {
        let b = self.pop_u64();
        let a = self.pop_u64();
        self.push_u8(if a != b { 1 } else { 0 });
        proof {
            assert(self.stack@ =~= old(self).stack@.subrange(
                0,
                old(self).stack@.len() - 16,
            ) + seq![(if second_u64(old(self).stack@) != top_u64(old(self).stack@) { 1u8 } else { 0u8 })]);
        }
    }

    /// Push `1` if the lower value is unequal to the topmost, comparing as two's complement, else `0`.
    pub fn neq_i64(&mut self)
        requires
            old(self).stack@.len() >= 16,
        ensures
            final(self)@ == (ProcView {
                stack: old(self).stack@.subrange(0, old(self).stack@.len() - 16)
                    + seq![(if (second_u64(old(self).stack@) as i64) != (top_u64(old(self).stack@) as i64) { 1u8 } else { 0u8 })],
                ..old(self)@
            }),
    {
        let b = self.pop_u64() as i64;
        let a = self.pop_u64() as i64;
        self.push_u8(if a != b { 1 } else { 0 });
        proof {
            assert(self.stack@ =~= old(self).stack@.subrange(
                0,
                old(self).stack@.len() - 16,
            ) + seq![(if (second_u64(old(self).stack@) as i64) != (top_u64(old(self).stack@) as i64) { 1u8 } else { 0u8 })]);
        }
    }
}

} // verus!
