//! The arithmetic of the integer opcodes: 32- and 64-bit two's-complement
//! values, wrapping on overflow, with division that truncates toward zero.

use vstd::prelude::*;
use vstd::arithmetic::div_mod::{
    lemma_div_pos_is_pos, lemma_fundamental_div_mod, lemma_mod_pos_bound,
};

verus! {

/// The 32-bit two's-complement value that is congruent to `x` modulo 2^32.
pub open spec fn wrap32(x: int) -> int {
    (x + 0x8000_0000) % 0x1_0000_0000 - 0x8000_0000
}

/// `a / b` rounded toward zero.
pub open spec fn trunc_div(a: int, b: int) -> int {
    if a >= 0 {
        if b > 0 {
            a / b
        } else {
            -(a / (-b))
        }
    } else {
        if b > 0 {
            -((-a) / b)
        } else {
            (-a) / (-b)
        }
    }
}

/// The remainder that goes with `trunc_div`: it has the sign of `a`.
pub open spec fn trunc_rem(a: int, b: int) -> int {
    if a >= 0 {
        if b > 0 {
            a % b
        } else {
            a % (-b)
        }
    } else {
        if b > 0 {
            -((-a) % b)
        } else {
            -((-a) % (-b))
        }
    }
}

pub open spec fn iadd_spec(a: i32, b: i32) -> i32 {
    wrap32(a + b) as i32
}

pub open spec fn isub_spec(a: i32, b: i32) -> i32 {
    wrap32(a - b) as i32
}

/// The quotient of `idiv`, for a divisor that is not zero.
pub open spec fn idiv_spec(a: i32, b: i32) -> i32 {
    wrap32(trunc_div(a as int, b as int)) as i32
}

/// The remainder of `irem`, for a divisor that is not zero.
pub open spec fn irem_spec(a: i32, b: i32) -> i32 {
    trunc_rem(a as int, b as int) as i32
}

/// The number of places by which the 32-bit shifts move: the low five bits of
/// the count.
pub open spec fn shift32(count: i32) -> u32 {
    (count & 0x1fi32) as u32
}

/// The number of places by which the 64-bit shifts move: the low six bits of
/// the count.
pub open spec fn shift64(count: i64) -> u32 {
    (count & 0x3fi64) as u32
}

pub open spec fn ishl_spec(a: i32, count: i32) -> i32 {
    a << shift32(count)
}

/// Arithmetic shift right: the sign is kept.
pub open spec fn ishr_spec(a: i32, count: i32) -> i32 {
    a >> shift32(count)
}

pub open spec fn lshl_spec(a: i64, count: i64) -> i64 {
    a << shift64(count)
}

/// Arithmetic shift right: the sign is kept.
pub open spec fn lshr_spec(a: i64, count: i64) -> i64 {
    a >> shift64(count)
}

pub fn iadd(a: i32, b: i32) -> (r: i32)
    ensures
        r == iadd_spec(a, b),
{
    a.wrapping_add(b)
}

pub fn isub(a: i32, b: i32) -> (r: i32)
    ensures
        r == isub_spec(a, b),
{
    a.wrapping_sub(b)
}

/// `a / b`, or `None` where `b` is zero.
pub fn idiv(a: i32, b: i32) -> (r: Option<i32>)
    ensures
        r == (if b == 0 {
            None
        } else {
            Some(idiv_spec(a, b))
        }),
{
    if b == 0 {
        return None;
    }
    match a.checked_div(b) {
        Some(q) => Some(q),
        // The one quotient that does not fit: it wraps to the dividend.
        None => Some(i32::MIN),
    }
}

/// `a % b`, or `None` where `b` is zero.
pub fn irem(a: i32, b: i32) -> (r: Option<i32>)
    ensures
        r == (if b == 0 {
            None
        } else {
            Some(irem_spec(a, b))
        }),
{
    if b == 0 {
        return None;
    }
    proof {
        lemma_truncation(a as int, b as int);
    }
    match a.checked_rem(b) {
        Some(m) => Some(m),
        None => Some(0),
    }
}

pub fn ishl(a: i32, count: i32) -> (r: i32)
    ensures
        r == ishl_spec(a, count),
{
    let places: i32 = count & 0x1f;
    assert(0 <= places < 32) by (bit_vector)
        requires
            places == count & 0x1f,
    ;
    a.wrapping_shl(places as u32)
}

pub fn ishr(a: i32, count: i32) -> (r: i32)
    ensures
        r == ishr_spec(a, count),
{
    let places: i32 = count & 0x1f;
    assert(0 <= places < 32) by (bit_vector)
        requires
            places == count & 0x1f,
    ;
    a >> (places as u32)
}

pub fn lshl(a: i64, count: i64) -> (r: i64)
    ensures
        r == lshl_spec(a, count),
{
    let places: i64 = count & 0x3f;
    assert(0 <= places < 64) by (bit_vector)
        requires
            places == count & 0x3f,
    ;
    a.wrapping_shl(places as u32)
}

pub fn lshr(a: i64, count: i64) -> (r: i64)
    ensures
        r == lshr_spec(a, count),
{
    let places: i64 = count & 0x3f;
    assert(0 <= places < 64) by (bit_vector)
        requires
            places == count & 0x3f,
    ;
    a >> (places as u32)
}

/// Division of a natural number by a positive one.
proof fn lemma_natural_division(x: int, d: int)
    requires
        x >= 0,
        d > 0,
    ensures
        x == (x / d) * d + (x % d),
        0 <= x % d < d,
        0 <= x / d <= x,
        0 <= (x / d) * d <= x,
{
    lemma_fundamental_div_mod(x, d);
    lemma_mod_pos_bound(x, d);
    lemma_div_pos_is_pos(x, d);
    let q = x / d;
    assert(q * d == d * q) by (nonlinear_arith);
    assert(0 <= q * d && q <= q * d) by (nonlinear_arith)
        requires
            q >= 0,
            d >= 1,
    ;
}

/// All that the laws below need of `trunc_div` and `trunc_rem`.
proof fn lemma_truncation(a: int, b: int)
    requires
        b != 0,
    ensures
        a == trunc_div(a, b) * b + trunc_rem(a, b),
        a >= 0 ==> 0 <= trunc_rem(a, b) && 0 <= trunc_div(a, b) * b <= a && -a <= trunc_div(a, b)
            <= a,
        a <= 0 ==> trunc_rem(a, b) <= 0 && a <= trunc_div(a, b) * b <= 0 && a <= trunc_div(a, b)
            <= -a,
        b > 0 ==> -b < trunc_rem(a, b) < b,
        b < 0 ==> b < trunc_rem(a, b) < -b,
        b == -1 ==> trunc_div(a, b) == -a,
{
    let x = if a >= 0 {
        a
    } else {
        -a
    };
    let d = if b > 0 {
        b
    } else {
        -b
    };
    lemma_natural_division(x, d);
    let k = x / d;
    assert(k * (-d) == -(k * d) && (-k) * d == -(k * d) && (-k) * (-d) == k * d)
        by (nonlinear_arith);
    if d == 1 {
        assert(k * d == k) by (nonlinear_arith)
            requires
                d == 1,
        ;
    }
}

/// The remainder is smaller than the divisor in absolute value and has the
/// sign of the dividend.
pub proof fn lemma_rem_bounds(a: int, b: int)
    requires
        b != 0,
    ensures
        a >= 0 ==> 0 <= trunc_rem(a, b),
        a <= 0 ==> trunc_rem(a, b) <= 0,
        b > 0 ==> -b < trunc_rem(a, b) < b,
        b < 0 ==> b < trunc_rem(a, b) < -b,
{
    lemma_truncation(a, b);
}

/// Quotient and remainder fit together: `a = (a / b) * b + (a % b)` whenever
/// `b` is not zero.
pub proof fn lemma_div_rem(a: int, b: int)
    requires
        b != 0,
    ensures
        a == trunc_div(a, b) * b + trunc_rem(a, b),
{
    lemma_truncation(a, b);
}

/// Division truncates toward zero: the quotient times the divisor is no
/// further from zero than the dividend, and misses it by less than the
/// divisor.
pub proof fn lemma_div_truncates(a: int, b: int)
    requires
        b != 0,
    ensures
        a >= 0 ==> 0 <= trunc_div(a, b) * b <= a,
        a <= 0 ==> a <= trunc_div(a, b) * b <= 0,
        b > 0 ==> -b < a - trunc_div(a, b) * b < b,
        b < 0 ==> b < a - trunc_div(a, b) * b < -b,
{
    lemma_truncation(a, b);
}

/// `isub` and `iadd` wrap: the result is the 32-bit value congruent to the
/// exact difference or sum modulo 2^32, and is that difference or sum itself
/// where it fits.
pub proof fn lemma_isub_wraps(a: i32, b: i32)
    ensures
        (isub_spec(a, b) - (a - b)) % 0x1_0000_0000 == 0,
        i32::MIN <= a - b <= i32::MAX ==> isub_spec(a, b) == a - b,
        (iadd_spec(a, b) - (a + b)) % 0x1_0000_0000 == 0,
        i32::MIN <= a + b <= i32::MAX ==> iadd_spec(a, b) == a + b,
{
}

/// On 32-bit values: `idiv` truncates toward zero, and `a` is
/// `(a / b) * b + (a % b)` in wrapping arithmetic for every divisor but zero;
/// the sum is exact unless the quotient itself overflows.
pub proof fn lemma_idiv_irem(a: i32, b: i32)
    requires
        b != 0,
    ensures
        !(a == i32::MIN && b == -1) ==> idiv_spec(a, b) == trunc_div(a as int, b as int),
        !(a == i32::MIN && b == -1) ==> a == idiv_spec(a, b) * b + irem_spec(a, b),
        a == i32::MIN && b == -1 ==> idiv_spec(a, b) == i32::MIN && irem_spec(a, b) == 0,
        a == wrap32(idiv_spec(a, b) * b + irem_spec(a, b)),
{
    lemma_truncation(a as int, b as int);
    let q = trunc_div(a as int, b as int);
    if a == i32::MIN && b == -1 {
        assert(q == 0x8000_0000);
        assert(idiv_spec(a, b) * b == 0x8000_0000) by (nonlinear_arith)
            requires
                idiv_spec(a, b) == -0x8000_0000,
                b == -1,
        ;
    } else {
        // The quotient fits in 32 bits.
        assert(q != 0x8000_0000) by (nonlinear_arith)
            requires
                b != 0,
                b != -1 || a != -0x8000_0000,
                -0x8000_0000 <= a < 0x8000_0000,
                a >= 0 ==> 0 <= q * b <= a && -a <= q <= a,
                a <= 0 ==> a <= q * b <= 0 && a <= q <= -a,
        ;
        assert(wrap32(q) == q);
    }
}

} // verus!
