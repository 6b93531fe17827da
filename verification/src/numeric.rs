//! Truncated signed division and remainder, with silent wraparound.
//!
//! All fixed-width integer arithmetic in this machine wraps silently on
//! overflow.  Addition, subtraction and multiplication use the wrapping
//! specifications from `vstd::wrapping`; division and remainder get their
//! mathematical statement here.  Division truncates toward zero, as the
//! hardware instructions do; the one overflowing case (the smallest value
//! divided by minus one) wraps back to the smallest value, and its remainder
//! is zero.  Division or remainder by zero is never computed: the dispatch
//! loop reports it as a fault first.

use vstd::prelude::*;

verus! {

/// The magnitude of a mathematical integer.
pub open spec fn abs_int(x: int) -> int {
    if x < 0 {
        -x
    } else {
        x
    }
}

/// The quotient of truncated division: magnitudes divide, the sign follows
/// the rule of signs.
pub open spec fn truncated_div(x: int, d: int) -> int
    recommends
        d != 0,
{
    if (x < 0) == (d < 0) {
        abs_int(x) / abs_int(d)
    } else {
        -(abs_int(x) / abs_int(d))
    }
}

/// The remainder of truncated division: `x - truncated_div(x, d) * d`, which
/// has the magnitude of `abs(x) % abs(d)` and the sign of `x`.
pub open spec fn truncated_rem(x: int, d: int) -> int
    recommends
        d != 0,
{
    if x < 0 {
        -(abs_int(x) % abs_int(d))
    } else {
        abs_int(x) % abs_int(d)
    }
}

/// Truncated 8-bit signed division, wrapping on the single overflow case.
pub open spec fn sdiv_i8(a: i8, b: i8) -> i8
    recommends
        b != 0,
{
    let q = truncated_div(a as int, b as int);
    if q > i8::MAX {
        i8::MIN
    } else {
        q as i8
    }
}

/// Truncated 16-bit signed division, wrapping on the single overflow case.
pub open spec fn sdiv_i16(a: i16, b: i16) -> i16
    recommends
        b != 0,
{
    let q = truncated_div(a as int, b as int);
    if q > i16::MAX {
        i16::MIN
    } else {
        q as i16
    }
}

/// Truncated 32-bit signed division, wrapping on the single overflow case.
pub open spec fn sdiv_i32(a: i32, b: i32) -> i32
    recommends
        b != 0,
{
    let q = truncated_div(a as int, b as int);
    if q > i32::MAX {
        i32::MIN
    } else {
        q as i32
    }
}

/// Truncated 64-bit signed division, wrapping on the single overflow case.
pub open spec fn sdiv_i64(a: i64, b: i64) -> i64
    recommends
        b != 0,
{
    let q = truncated_div(a as int, b as int);
    if q > i64::MAX {
        i64::MIN
    } else {
        q as i64
    }
}

/// Truncated 8-bit signed remainder.
pub open spec fn srem_i8(a: i8, b: i8) -> i8
    recommends
        b != 0,
{
    truncated_rem(a as int, b as int) as i8
}

/// Truncated 16-bit signed remainder.
pub open spec fn srem_i16(a: i16, b: i16) -> i16
    recommends
        b != 0,
{
    truncated_rem(a as int, b as int) as i16
}

/// Truncated 32-bit signed remainder.
pub open spec fn srem_i32(a: i32, b: i32) -> i32
    recommends
        b != 0,
{
    truncated_rem(a as int, b as int) as i32
}

/// Truncated 64-bit signed remainder.
pub open spec fn srem_i64(a: i64, b: i64) -> i64
    recommends
        b != 0,
{
    truncated_rem(a as int, b as int) as i64
}

/// `checked_div` computes exactly the truncated, wrapping division that
/// [`sdiv_i8`] states, reporting the single overflowing case as `None`.
pub proof fn lemma_checked_div_i8(a: i8, b: i8)
    requires
        b != 0,
    ensures
        !(a == i8::MIN && b == -1) ==> a.checked_div(b) == Some(sdiv_i8(a, b)),
        a == i8::MIN && b == -1 ==> a.checked_div(b) is None && sdiv_i8(a, b) == i8::MIN,
{
    let x = a as int;
    let d = b as int;
    let q0 = abs_int(x) / abs_int(d);
    let r0 = abs_int(x) % abs_int(d);
    vstd::arithmetic::div_mod::lemma_fundamental_div_mod(abs_int(x), abs_int(d));
    vstd::arithmetic::div_mod::lemma_mod_division_less_than_divisor(abs_int(x), abs_int(d));
    vstd::arithmetic::div_mod::lemma_div_pos_is_pos(abs_int(x), abs_int(d));
    assert(q0 <= abs_int(x)) by (nonlinear_arith)
        requires
            abs_int(x) == abs_int(d) * q0 + r0,
            abs_int(d) >= 1,
            q0 >= 0,
            r0 >= 0,
    ;
    if q0 > i8::MAX {
        assert(abs_int(d) == 1 && r0 == 0) by (nonlinear_arith)
            requires
                abs_int(x) == abs_int(d) * q0 + r0,
                abs_int(d) >= 1,
                q0 > i8::MAX,
                abs_int(x) <= i8::MAX + 1,
                0 <= r0 < abs_int(d),
        ;
    }
}

/// `checked_rem` computes exactly the truncated remainder that
/// [`srem_i8`] states; the single `None` case has remainder zero.
pub proof fn lemma_checked_rem_i8(a: i8, b: i8)
    requires
        b != 0,
    ensures
        !(a == i8::MIN && b == -1) ==> a.checked_rem(b) == Some(srem_i8(a, b)),
        a == i8::MIN && b == -1 ==> a.checked_rem(b) is None && srem_i8(a, b) == 0,
{
    let x = a as int;
    let d = b as int;
    vstd::arithmetic::div_mod::lemma_mod_division_less_than_divisor(abs_int(x), abs_int(d));
    if a == i8::MIN && b == -1 {
        vstd::arithmetic::div_mod::lemma_mod_division_less_than_divisor(abs_int(x), 1);
    } else if x == 0 {
        assert(a.checked_rem(b) == Some(srem_i8(a, b)));
    } else if x > 0 && d > 0 {
        assert(a.checked_rem(b) == Some(srem_i8(a, b)));
    } else if x < 0 && d < 0 {
        assert(a.checked_rem(b) == Some(srem_i8(a, b)));
    } else if x < 0 {
        assert(a.checked_rem(b) == Some(srem_i8(a, b)));
    } else {
        assert(a.checked_rem(b) == Some(srem_i8(a, b)));
    }
}

/// `checked_div` computes exactly the truncated, wrapping division that
/// [`sdiv_i16`] states, reporting the single overflowing case as `None`.
pub proof fn lemma_checked_div_i16(a: i16, b: i16)
    requires
        b != 0,
    ensures
        !(a == i16::MIN && b == -1) ==> a.checked_div(b) == Some(sdiv_i16(a, b)),
        a == i16::MIN && b == -1 ==> a.checked_div(b) is None && sdiv_i16(a, b) == i16::MIN,
{
    let x = a as int;
    let d = b as int;
    let q0 = abs_int(x) / abs_int(d);
    let r0 = abs_int(x) % abs_int(d);
    vstd::arithmetic::div_mod::lemma_fundamental_div_mod(abs_int(x), abs_int(d));
    vstd::arithmetic::div_mod::lemma_mod_division_less_than_divisor(abs_int(x), abs_int(d));
    vstd::arithmetic::div_mod::lemma_div_pos_is_pos(abs_int(x), abs_int(d));
    assert(q0 <= abs_int(x)) by (nonlinear_arith)
        requires
            abs_int(x) == abs_int(d) * q0 + r0,
            abs_int(d) >= 1,
            q0 >= 0,
            r0 >= 0,
    ;
    if q0 > i16::MAX {
        assert(abs_int(d) == 1 && r0 == 0) by (nonlinear_arith)
            requires
                abs_int(x) == abs_int(d) * q0 + r0,
                abs_int(d) >= 1,
                q0 > i16::MAX,
                abs_int(x) <= i16::MAX + 1,
                0 <= r0 < abs_int(d),
        ;
    }
}

/// `checked_rem` computes exactly the truncated remainder that
/// [`srem_i16`] states; the single `None` case has remainder zero.
pub proof fn lemma_checked_rem_i16(a: i16, b: i16)
    requires
        b != 0,
    ensures
        !(a == i16::MIN && b == -1) ==> a.checked_rem(b) == Some(srem_i16(a, b)),
        a == i16::MIN && b == -1 ==> a.checked_rem(b) is None && srem_i16(a, b) == 0,
{
    let x = a as int;
    let d = b as int;
    vstd::arithmetic::div_mod::lemma_mod_division_less_than_divisor(abs_int(x), abs_int(d));
    if a == i16::MIN && b == -1 {
        vstd::arithmetic::div_mod::lemma_mod_division_less_than_divisor(abs_int(x), 1);
    } else if x == 0 {
        assert(a.checked_rem(b) == Some(srem_i16(a, b)));
    } else if x > 0 && d > 0 {
        assert(a.checked_rem(b) == Some(srem_i16(a, b)));
    } else if x < 0 && d < 0 {
        assert(a.checked_rem(b) == Some(srem_i16(a, b)));
    } else if x < 0 {
        assert(a.checked_rem(b) == Some(srem_i16(a, b)));
    } else {
        assert(a.checked_rem(b) == Some(srem_i16(a, b)));
    }
}

/// `checked_div` computes exactly the truncated, wrapping division that
/// [`sdiv_i32`] states, reporting the single overflowing case as `None`.
pub proof fn lemma_checked_div_i32(a: i32, b: i32)
    requires
        b != 0,
    ensures
        !(a == i32::MIN && b == -1) ==> a.checked_div(b) == Some(sdiv_i32(a, b)),
        a == i32::MIN && b == -1 ==> a.checked_div(b) is None && sdiv_i32(a, b) == i32::MIN,
{
    let x = a as int;
    let d = b as int;
    let q0 = abs_int(x) / abs_int(d);
    let r0 = abs_int(x) % abs_int(d);
    vstd::arithmetic::div_mod::lemma_fundamental_div_mod(abs_int(x), abs_int(d));
    vstd::arithmetic::div_mod::lemma_mod_division_less_than_divisor(abs_int(x), abs_int(d));
    vstd::arithmetic::div_mod::lemma_div_pos_is_pos(abs_int(x), abs_int(d));
    assert(q0 <= abs_int(x)) by (nonlinear_arith)
        requires
            abs_int(x) == abs_int(d) * q0 + r0,
            abs_int(d) >= 1,
            q0 >= 0,
            r0 >= 0,
    ;
    if q0 > i32::MAX {
        assert(abs_int(d) == 1 && r0 == 0) by (nonlinear_arith)
            requires
                abs_int(x) == abs_int(d) * q0 + r0,
                abs_int(d) >= 1,
                q0 > i32::MAX,
                abs_int(x) <= i32::MAX + 1,
                0 <= r0 < abs_int(d),
        ;
    }
}

/// `checked_rem` computes exactly the truncated remainder that
/// [`srem_i32`] states; the single `None` case has remainder zero.
pub proof fn lemma_checked_rem_i32(a: i32, b: i32)
    requires
        b != 0,
    ensures
        !(a == i32::MIN && b == -1) ==> a.checked_rem(b) == Some(srem_i32(a, b)),
        a == i32::MIN && b == -1 ==> a.checked_rem(b) is None && srem_i32(a, b) == 0,
{
    let x = a as int;
    let d = b as int;
    vstd::arithmetic::div_mod::lemma_mod_division_less_than_divisor(abs_int(x), abs_int(d));
    if a == i32::MIN && b == -1 {
        vstd::arithmetic::div_mod::lemma_mod_division_less_than_divisor(abs_int(x), 1);
    } else if x == 0 {
        assert(a.checked_rem(b) == Some(srem_i32(a, b)));
    } else if x > 0 && d > 0 {
        assert(a.checked_rem(b) == Some(srem_i32(a, b)));
    } else if x < 0 && d < 0 {
        assert(a.checked_rem(b) == Some(srem_i32(a, b)));
    } else if x < 0 {
        assert(a.checked_rem(b) == Some(srem_i32(a, b)));
    } else {
        assert(a.checked_rem(b) == Some(srem_i32(a, b)));
    }
}

/// `checked_div` computes exactly the truncated, wrapping division that
/// [`sdiv_i64`] states, reporting the single overflowing case as `None`.
pub proof fn lemma_checked_div_i64(a: i64, b: i64)
    requires
        b != 0,
    ensures
        !(a == i64::MIN && b == -1) ==> a.checked_div(b) == Some(sdiv_i64(a, b)),
        a == i64::MIN && b == -1 ==> a.checked_div(b) is None && sdiv_i64(a, b) == i64::MIN,
{
    let x = a as int;
    let d = b as int;
    let q0 = abs_int(x) / abs_int(d);
    let r0 = abs_int(x) % abs_int(d);
    vstd::arithmetic::div_mod::lemma_fundamental_div_mod(abs_int(x), abs_int(d));
    vstd::arithmetic::div_mod::lemma_mod_division_less_than_divisor(abs_int(x), abs_int(d));
    vstd::arithmetic::div_mod::lemma_div_pos_is_pos(abs_int(x), abs_int(d));
    assert(q0 <= abs_int(x)) by (nonlinear_arith)
        requires
            abs_int(x) == abs_int(d) * q0 + r0,
            abs_int(d) >= 1,
            q0 >= 0,
            r0 >= 0,
    ;
    if q0 > i64::MAX {
        assert(abs_int(d) == 1 && r0 == 0) by (nonlinear_arith)
            requires
                abs_int(x) == abs_int(d) * q0 + r0,
                abs_int(d) >= 1,
                q0 > i64::MAX,
                abs_int(x) <= i64::MAX + 1,
                0 <= r0 < abs_int(d),
        ;
    }
}

/// `checked_rem` computes exactly the truncated remainder that
/// [`srem_i64`] states; the single `None` case has remainder zero.
pub proof fn lemma_checked_rem_i64(a: i64, b: i64)
    requires
        b != 0,
    ensures
        !(a == i64::MIN && b == -1) ==> a.checked_rem(b) == Some(srem_i64(a, b)),
        a == i64::MIN && b == -1 ==> a.checked_rem(b) is None && srem_i64(a, b) == 0,
{
    let x = a as int;
    let d = b as int;
    vstd::arithmetic::div_mod::lemma_mod_division_less_than_divisor(abs_int(x), abs_int(d));
    if a == i64::MIN && b == -1 {
        vstd::arithmetic::div_mod::lemma_mod_division_less_than_divisor(abs_int(x), 1);
    } else if x == 0 {
        assert(a.checked_rem(b) == Some(srem_i64(a, b)));
    } else if x > 0 && d > 0 {
        assert(a.checked_rem(b) == Some(srem_i64(a, b)));
    } else if x < 0 && d < 0 {
        assert(a.checked_rem(b) == Some(srem_i64(a, b)));
    } else if x < 0 {
        assert(a.checked_rem(b) == Some(srem_i64(a, b)));
    } else {
        assert(a.checked_rem(b) == Some(srem_i64(a, b)));
    }
}

} // verus!
