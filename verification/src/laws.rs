//! The general laws of the execution stack.
//!
//! The push, pop and copy primitives of [`crate::process::Process`] state
//! their effect over the big-endian packing of [`crate::bytes`]; the laws
//! here say what those effects compose to, for every stack and every
//! value: a pop immediately after a push returns the pushed value and
//! leaves the stack as it was, a duplicated top value pops to the same
//! value twice, and a return address pushed by `call` is exactly what the
//! matching `ret` pops, in LIFO order.

use vstd::prelude::*;

use crate::bytes::be_bytes_u16;
use crate::bytes::be_bytes_u32;
use crate::bytes::be_bytes_u64;
use crate::bytes::lemma_u16_roundtrip;
use crate::bytes::lemma_u32_roundtrip;
use crate::bytes::lemma_u64_roundtrip;
use crate::process::top_u8;
use crate::process::top_u16;
use crate::process::top_u32;
use crate::process::top_u64;

verus! {

/// Round trip: `pop_u8` immediately after `push_u8(v)` returns `v`, and
/// the stack is as it was.  `push_u8` leaves `stack.push(v)`, and `pop_u8`
/// on that returns its top and leaves its prefix.
pub proof fn lemma_push_pop_roundtrip_u8(stack: Seq<u8>, v: u8)
    ensures
        top_u8(stack.push(v)) == v,
        stack.push(v).subrange(0, stack.push(v).len() - 1) == stack,
{
    assert(stack.push(v).subrange(0, stack.len() as int) =~= stack);
}

/// Round trip: `pop_u16` immediately after `push_u16(v)` returns `v`, and
/// the stack is as it was.
pub proof fn lemma_push_pop_roundtrip_u16(stack: Seq<u8>, v: u16)
    ensures
        top_u16(stack + be_bytes_u16(v)) == v,
        (stack + be_bytes_u16(v)).subrange(0, (stack + be_bytes_u16(v)).len() - 2) == stack,
{
    lemma_u16_roundtrip(v);
    assert((stack + be_bytes_u16(v)).subrange(0, stack.len() as int) =~= stack);
}

/// Round trip: `pop_u32` immediately after `push_u32(v)` returns `v`, and
/// the stack is as it was.
pub proof fn lemma_push_pop_roundtrip_u32(stack: Seq<u8>, v: u32)
    ensures
        top_u32(stack + be_bytes_u32(v)) == v,
        (stack + be_bytes_u32(v)).subrange(0, (stack + be_bytes_u32(v)).len() - 4) == stack,
{
    lemma_u32_roundtrip(v);
    assert((stack + be_bytes_u32(v)).subrange(0, stack.len() as int) =~= stack);
}

/// Round trip: `pop_u64` immediately after `push_u64(v)` returns `v`, and
/// the stack is as it was.
pub proof fn lemma_push_pop_roundtrip_u64(stack: Seq<u8>, v: u64)
    ensures
        top_u64(stack + be_bytes_u64(v)) == v,
        (stack + be_bytes_u64(v)).subrange(0, (stack + be_bytes_u64(v)).len() - 8) == stack,
{
    lemma_u64_roundtrip(v);
    assert((stack + be_bytes_u64(v)).subrange(0, stack.len() as int) =~= stack);
}

/// Copy idempotence: after `copy_u8`, popping twice yields the same value
/// both times, and the stack below is untouched.
pub proof fn lemma_copy_idempotent_u8(stack: Seq<u8>)
    requires
        stack.len() >= 1,
    ensures
        top_u8(stack.push(top_u8(stack))) == top_u8(stack),
        stack.push(top_u8(stack)).subrange(0, stack.len() as int) == stack,
{
    assert(stack.push(top_u8(stack)).subrange(0, stack.len() as int) =~= stack);
}

/// Copy idempotence: after `copy_u16`, popping twice yields the same value
/// both times, and the stack below is untouched.
pub proof fn lemma_copy_idempotent_u16(stack: Seq<u8>)
    requires
        stack.len() >= 2,
    ensures
        top_u16(stack + stack.subrange(stack.len() - 2, stack.len() as int)) == top_u16(stack),
        (stack + stack.subrange(stack.len() - 2, stack.len() as int)).subrange(
            0,
            stack.len() as int,
        ) == stack,
{
    assert((stack + stack.subrange(stack.len() - 2, stack.len() as int)).subrange(
        0,
        stack.len() as int,
    ) =~= stack);
}

/// Copy idempotence: after `copy_u32`, popping twice yields the same value
/// both times, and the stack below is untouched.
pub proof fn lemma_copy_idempotent_u32(stack: Seq<u8>)
    requires
        stack.len() >= 4,
    ensures
        top_u32(stack + stack.subrange(stack.len() - 4, stack.len() as int)) == top_u32(stack),
        (stack + stack.subrange(stack.len() - 4, stack.len() as int)).subrange(
            0,
            stack.len() as int,
        ) == stack,
{
    assert((stack + stack.subrange(stack.len() - 4, stack.len() as int)).subrange(
        0,
        stack.len() as int,
    ) =~= stack);
}

/// Copy idempotence: after `copy_u64`, popping twice yields the same value
/// both times, and the stack below is untouched.
pub proof fn lemma_copy_idempotent_u64(stack: Seq<u8>)
    requires
        stack.len() >= 8,
    ensures
        top_u64(stack + stack.subrange(stack.len() - 8, stack.len() as int)) == top_u64(stack),
        (stack + stack.subrange(stack.len() - 8, stack.len() as int)).subrange(
            0,
            stack.len() as int,
        ) == stack,
{
    assert((stack + stack.subrange(stack.len() - 8, stack.len() as int)).subrange(
        0,
        stack.len() as int,
    ) =~= stack);
}

/// Call/return nesting: the return address a `call` pushes is exactly what
/// the next unmatched `ret` pops, and the call stack returns to its prior
/// shape — calls and returns pair in LIFO order, the depth moving by one
/// per call or return.
pub proof fn lemma_call_ret_lifo(calls: Seq<u64>, return_to: u64)
    ensures
        calls.push(return_to).last() == return_to,
        calls.push(return_to).drop_last() == calls,
        calls.push(return_to).len() == calls.len() + 1,
{
    assert(calls.push(return_to).drop_last() =~= calls);
}

} // verus!
