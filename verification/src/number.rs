//! Numbers.
//!
//! A number is an IEEE 754 double, held by its 64 bits: the sign, eleven
//! bits of exponent, fifty-two bits of fraction. How two numbers compare and
//! which integer a number truncates to is decided here, on the bits.
//! Arithmetic is not: whoever runs an evaluation hands in a function that
//! performs one [`Operation`], and every result is stated over what that
//! function answers.

use vstd::arithmetic::power2::{lemma2_to64, lemma_pow2_strictly_increases, pow2};
use vstd::bits::{lemma_u64_shl_is_mul, lemma_u64_shr_is_div};
use vstd::prelude::*;

verus! {

/// The bit of the sign; as a number, two to the sixty-third.
pub const SIGN_BIT: u64 = 0x8000_0000_0000_0000;

/// The bits of positive infinity: every magnitude above it is not a number.
pub const INFINITY: u64 = 0x7ff0_0000_0000_0000;

/// Two to the fifty-second: the leading bit of a normal number's
/// significand, which the fraction leaves out.
pub const HIDDEN_BIT: u64 = 0x0010_0000_0000_0000;

/// The exponent field of one: a number with this field, or a larger one, is
/// at least one in magnitude.
pub const EXPONENT_OF_ONE: u64 = 1023;

/// The exponent field at which the significand, read as an integer, is the
/// magnitude itself.
pub const EXPONENT_OF_SIGNIFICAND: u64 = 1075;

/// The bits without the sign.
pub open spec fn magnitude(x: u64) -> int {
    x as int % 0x8000_0000_0000_0000
}

/// Whether the sign bit is set.
pub open spec fn sign(x: u64) -> bool {
    x >= SIGN_BIT
}

/// The exponent field.
pub open spec fn exponent(x: u64) -> int {
    magnitude(x) / 0x0010_0000_0000_0000
}

/// The fraction field.
pub open spec fn fraction(x: u64) -> int {
    magnitude(x) % 0x0010_0000_0000_0000
}

/// Whether the bits are those of a NaN.
pub open spec fn spec_is_nan(x: u64) -> bool {
    magnitude(x) > INFINITY
}

/// An integer that orders the numbers other than NaN as their values are
/// ordered: the magnitude's bits, negated under a set sign. Both zeros have
/// the key zero.
pub open spec fn spec_sort_key(x: u64) -> int {
    if sign(x) {
        -magnitude(x)
    } else {
        magnitude(x)
    }
}

/// `a == b` on numbers: false where either is NaN, true of the two zeros.
pub open spec fn spec_number_eq(a: u64, b: u64) -> bool {
    !spec_is_nan(a) && !spec_is_nan(b) && spec_sort_key(a) == spec_sort_key(b)
}

/// `a < b` on numbers: false where either is NaN.
pub open spec fn spec_number_lt(a: u64, b: u64) -> bool {
    !spec_is_nan(a) && !spec_is_nan(b) && spec_sort_key(a) < spec_sort_key(b)
}

/// `a <= b` on numbers: false where either is NaN.
pub open spec fn spec_number_le(a: u64, b: u64) -> bool {
    !spec_is_nan(a) && !spec_is_nan(b) && spec_sort_key(a) <= spec_sort_key(b)
}

/// Whether a number is below zero. Neither zero is, nor is NaN.
pub open spec fn spec_is_below_zero(x: u64) -> bool {
    !spec_is_nan(x) && spec_sort_key(x) < 0
}

/// The magnitude of a number's value, fraction dropped; zero below one. It
/// is the significand times two to the power of the exponent, the hidden bit
/// counted in and the exponent taken from `EXPONENT_OF_SIGNIFICAND`.
pub open spec fn whole_magnitude(x: u64) -> int {
    let e = exponent(x);
    let significand = HIDDEN_BIT + fraction(x);
    if e < EXPONENT_OF_ONE {
        0
    } else if e <= EXPONENT_OF_SIGNIFICAND {
        significand / (pow2((EXPONENT_OF_SIGNIFICAND - e) as nat) as int)
    } else {
        significand * pow2((e - EXPONENT_OF_SIGNIFICAND) as nat)
    }
}

/// The integer a number truncates to: its value rounded toward zero, held to
/// the range of `i64`; zero for NaN.
pub open spec fn spec_to_integer(x: u64) -> int {
    if spec_is_nan(x) {
        0
    } else {
        let v = if sign(x) {
            -whole_magnitude(x)
        } else {
            whole_magnitude(x)
        };
        if v < i64::MIN {
            i64::MIN as int
        } else if v > i64::MAX {
            i64::MAX as int
        } else {
            v
        }
    }
}

/// `v` held to the range of `i32`.
pub open spec fn spec_clamp_i32(v: int) -> int {
    if v < i32::MIN {
        i32::MIN as int
    } else if v > i32::MAX {
        i32::MAX as int
    } else {
        v
    }
}

/// Whether the bits are those of a NaN.
#[verifier::when_used_as_spec(spec_is_nan)]
pub fn is_nan(x: u64) -> (r: bool)
    ensures
        r == spec_is_nan(x),
{
    x % SIGN_BIT > INFINITY
}

/// The integer by which a number is ordered.
pub fn sort_key(x: u64) -> (r: i64)
    ensures
        r == spec_sort_key(x),
{
    let m = (x % SIGN_BIT) as i64;
    if x >= SIGN_BIT {
        -m
    } else {
        m
    }
}

/// Whether two numbers are equal.
#[verifier::when_used_as_spec(spec_number_eq)]
pub fn number_eq(a: u64, b: u64) -> (r: bool)
    ensures
        r == spec_number_eq(a, b),
{
    !is_nan(a) && !is_nan(b) && sort_key(a) == sort_key(b)
}

/// Whether the first number is below the second.
#[verifier::when_used_as_spec(spec_number_lt)]
pub fn number_lt(a: u64, b: u64) -> (r: bool)
    ensures
        r == spec_number_lt(a, b),
{
    !is_nan(a) && !is_nan(b) && sort_key(a) < sort_key(b)
}

/// Whether the first number is below the second or equal to it.
#[verifier::when_used_as_spec(spec_number_le)]
pub fn number_le(a: u64, b: u64) -> (r: bool)
    ensures
        r == spec_number_le(a, b),
{
    !is_nan(a) && !is_nan(b) && sort_key(a) <= sort_key(b)
}

/// Whether a number is below zero.
#[verifier::when_used_as_spec(spec_is_below_zero)]
pub fn is_below_zero(x: u64) -> (r: bool)
    ensures
        r == spec_is_below_zero(x),
{
    !is_nan(x) && sort_key(x) < 0
}

/// The integer that a number truncates to.
pub fn to_integer(x: u64) -> (r: i64)
    ensures
        r == spec_to_integer(x),
{
    if is_nan(x) {
        return 0;
    }
    let negative = x >= SIGN_BIT;
    let m = x % SIGN_BIT;
    let e = m / HIDDEN_BIT;
    let significand = HIDDEN_BIT + m % HIDDEN_BIT;
    if e < EXPONENT_OF_ONE {
        0
    } else if e <= EXPONENT_OF_SIGNIFICAND {
        let k = EXPONENT_OF_SIGNIFICAND - e;
        let whole = significand >> k;
        proof {
            lemma_u64_shr_is_div(significand, k);
            assert(whole == whole_magnitude(x));
            assert(whole <= significand) by {
                vstd::arithmetic::power2::lemma_pow2_pos(k as nat);
                vstd::arithmetic::div_mod::lemma_div_is_ordered_by_denominator(
                    significand as int,
                    1,
                    pow2(k as nat) as int,
                );
            }
        }
        if negative {
            -(whole as i64)
        } else {
            whole as i64
        }
    } else if e <= EXPONENT_OF_SIGNIFICAND + 10 {
        let k = e - EXPONENT_OF_SIGNIFICAND;
        proof {
            lemma2_to64();
            if k < 10 {
                lemma_pow2_strictly_increases(k as nat, 10);
            }
            assert(significand * pow2(k as nat) <= 0x001f_ffff_ffff_ffff * 1024) by (
                nonlinear_arith)
                requires
                    significand <= 0x001f_ffff_ffff_ffff,
                    pow2(k as nat) <= 1024,
            ;
            lemma_u64_shl_is_mul(significand, k);
        }
        let whole = significand << k;
        assert(whole == whole_magnitude(x));
        if negative {
            -(whole as i64)
        } else {
            whole as i64
        }
    } else {
        proof {
            let k = (e - EXPONENT_OF_SIGNIFICAND) as nat;
            lemma2_to64();
            if k > 11 {
                lemma_pow2_strictly_increases(11, k);
            }
            assert(significand * pow2(k) >= 0x0010_0000_0000_0000 * 2048) by (nonlinear_arith)
                requires
                    significand >= 0x0010_0000_0000_0000,
                    pow2(k) >= 2048,
            ;
            assert(whole_magnitude(x) >= 0x8000_0000_0000_0000);
        }
        if negative {
            i64::MIN
        } else {
            i64::MAX
        }
    }
}

/// `v` held to the range of `i32`.
pub fn clamp_i32(v: i64) -> (r: i32)
    ensures
        r == spec_clamp_i32(v as int),
{
    if v < i32::MIN as i64 {
        i32::MIN
    } else if v > i32::MAX as i64 {
        i32::MAX
    } else {
        v as i32
    }
}

/// A number that is not below zero truncates to no negative integer, and
/// one that is below zero to no positive one.
pub proof fn law_truncation_keeps_the_sign(x: u64)
    ensures
        spec_is_below_zero(x) ==> spec_to_integer(x) <= 0,
        !spec_is_below_zero(x) ==> spec_to_integer(x) >= 0,
{
    let e = exponent(x);
    let significand = HIDDEN_BIT + fraction(x);
    if e >= EXPONENT_OF_ONE {
        if e <= EXPONENT_OF_SIGNIFICAND {
            let k = (EXPONENT_OF_SIGNIFICAND - e) as nat;
            vstd::arithmetic::power2::lemma_pow2_pos(k);
            vstd::arithmetic::div_mod::lemma_div_pos_is_pos(significand, pow2(k) as int);
        } else {
            let k = (e - EXPONENT_OF_SIGNIFICAND) as nat;
            vstd::arithmetic::power2::lemma_pow2_pos(k);
            assert(significand * pow2(k) >= 0) by (nonlinear_arith)
                requires
                    significand >= 0,
                    pow2(k) > 0,
            ;
        }
    }
}

/// One operation of arithmetic, on numbers given by their bits. The answer
/// to each is the bits of a number.
#[derive(Debug, PartialEq, Clone, Copy)]
pub enum Operation {
    /// The sum of two numbers.
    Add(u64, u64),
    /// The first number less the second.
    Sub(u64, u64),
    /// The product of two numbers.
    Mul(u64, u64),
    /// The first number divided by the second.
    Div(u64, u64),
    /// What is left of the first number after division by the second.
    Rem(u64, u64),
    /// The number nearest to an integer.
    FromInteger(i64),
}

/// What a function answers to each operation.
pub type Arithmetic = spec_fn(Operation) -> u64;

/// Whether `host` answers every operation, and each always alike.
pub open spec fn is_function<F: Fn(Operation) -> u64>(host: &F) -> bool {
    &&& forall|q: Operation| call_requires(*host, (q,))
    &&& forall|q: Operation, r1: u64, r2: u64|
        call_ensures(*host, (q,), r1) && call_ensures(*host, (q,), r2) ==> r1 == r2
}

/// What `host` answers to each operation.
pub open spec fn answers<F: Fn(Operation) -> u64>(host: &F) -> Arithmetic {
    |q: Operation| choose|r: u64| call_ensures(*host, (q,), r)
}

/// Has `host` perform `q`. What comes back is held to whatever `host` itself
/// promises of its results.
pub fn ask<F: Fn(Operation) -> u64>(host: &F, q: Operation) -> (r: u64)
    requires
        is_function(host),
    ensures
        r == answers(host)(q),
        call_ensures(*host, (q,), r),
{
    host(q)
}

} // verus!
