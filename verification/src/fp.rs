//! Scalar values as IEEE-754 binary64 bit patterns.
//!
//! The numeric domain of the library is the 64-bit IEEE-754 format, handled
//! here entirely through its bit patterns (`u64`).  The four rounding
//! arithmetic operations are performed by `rustc_apfloat`'s software
//! implementation of the format and are named but not otherwise specified:
//! each is a pure function of its operands.  Everything that the format
//! defines exactly at the bit level — sign, negation, absolute value,
//! equality, ordering, the NaN and zero tests — is implemented and verified
//! here directly.

use vstd::prelude::*;
use rustc_apfloat::Float;

verus! {

/// Bit pattern of positive one.
pub const ONE_BITS: u64 = 0x3ff0_0000_0000_0000;

/// The sign bit.
pub const SIGN_BIT: u64 = 0x8000_0000_0000_0000;

/// Bit pattern of positive infinity; greater magnitudes are NaNs.
pub const INF_BITS: u64 = 0x7ff0_0000_0000_0000;

/// What IEEE-754 binary64 addition (round to nearest, ties to even) returns,
/// as a function of the operand bit patterns.
pub uninterp spec fn add_bits(a: u64, b: u64) -> u64;

/// What IEEE-754 binary64 subtraction returns.
pub uninterp spec fn sub_bits(a: u64, b: u64) -> u64;

/// What IEEE-754 binary64 multiplication returns.
pub uninterp spec fn mul_bits(a: u64, b: u64) -> u64;

/// What IEEE-754 binary64 division returns.
pub uninterp spec fn div_bits(a: u64, b: u64) -> u64;

/// Relies on `rustc_apfloat::ieee::Double::add_r`: IEEE-754 binary64
/// addition, rounding to nearest with ties to even, a deterministic function
/// of the two operand bit patterns.
#[verifier::external_body]
pub(crate) fn fp_add(a: u64, b: u64) -> (r: u64)
    ensures
        r == add_bits(a, b),
{
    let x = rustc_apfloat::ieee::Double::from_bits(a as u128);
    let y = rustc_apfloat::ieee::Double::from_bits(b as u128);
    (x + y).value.to_bits() as u64
}

/// Relies on `rustc_apfloat::ieee::Double::sub_r`: IEEE-754 binary64
/// subtraction, rounding to nearest with ties to even, a deterministic
/// function of the two operand bit patterns.
#[verifier::external_body]
pub(crate) fn fp_sub(a: u64, b: u64) -> (r: u64)
    ensures
        r == sub_bits(a, b),
{
    let x = rustc_apfloat::ieee::Double::from_bits(a as u128);
    let y = rustc_apfloat::ieee::Double::from_bits(b as u128);
    (x - y).value.to_bits() as u64
}

/// Relies on `rustc_apfloat::ieee::Double::mul_r`: IEEE-754 binary64
/// multiplication, rounding to nearest with ties to even, a deterministic
/// function of the two operand bit patterns.
#[verifier::external_body]
pub(crate) fn fp_mul(a: u64, b: u64) -> (r: u64)
    ensures
        r == mul_bits(a, b),
{
    let x = rustc_apfloat::ieee::Double::from_bits(a as u128);
    let y = rustc_apfloat::ieee::Double::from_bits(b as u128);
    (x * y).value.to_bits() as u64
}

/// Relies on `rustc_apfloat::ieee::Double::div_r`: IEEE-754 binary64
/// division, rounding to nearest with ties to even, a deterministic function
/// of the two operand bit patterns.
#[verifier::external_body]
pub(crate) fn fp_div(a: u64, b: u64) -> (r: u64)
    ensures
        r == div_bits(a, b),
{
    let x = rustc_apfloat::ieee::Double::from_bits(a as u128);
    let y = rustc_apfloat::ieee::Double::from_bits(b as u128);
    (x / y).value.to_bits() as u64
}

/// The bit pattern with the sign bit cleared: the absolute value.
pub open spec fn abs_bits(b: u64) -> u64 {
    if b >= SIGN_BIT {
        (b - SIGN_BIT) as u64
    } else {
        b
    }
}

/// Whether the sign bit is set (also true of negative zero and negative NaNs).
pub open spec fn sign_bits(b: u64) -> bool {
    b >= SIGN_BIT
}

/// A NaN: any magnitude strictly above positive infinity.
pub open spec fn is_nan_bits(b: u64) -> bool {
    abs_bits(b) > INF_BITS
}

/// Positive or negative zero.
pub open spec fn is_zero_bits(b: u64) -> bool {
    abs_bits(b) == 0
}

/// The sign-magnitude order key of a non-NaN value.  The binary64 format is
/// monotonic in its magnitude bits, so two non-NaN values compare exactly as
/// these keys do, and both zeros share the key `0`.
pub open spec fn cmp_key(b: u64) -> int {
    if sign_bits(b) {
        -(abs_bits(b) as int)
    } else {
        abs_bits(b) as int
    }
}

/// IEEE equality of two values: false when either is NaN, true for the two
/// zeros, otherwise identity of bit patterns.
pub open spec fn float_eq_bits(a: u64, b: u64) -> bool {
    !is_nan_bits(a) && !is_nan_bits(b) && cmp_key(a) == cmp_key(b)
}

/// IEEE comparison of two values: no ordering when either is NaN, otherwise
/// the order of the sign-magnitude keys.
pub open spec fn float_cmp_bits(a: u64, b: u64) -> Option<core::cmp::Ordering> {
    if is_nan_bits(a) || is_nan_bits(b) {
        None
    } else if cmp_key(a) == cmp_key(b) {
        Some(core::cmp::Ordering::Equal)
    } else if cmp_key(a) < cmp_key(b) {
        Some(core::cmp::Ordering::Less)
    } else {
        Some(core::cmp::Ordering::Greater)
    }
}

/// A value strictly below zero: the sign bit is set and the value is neither
/// NaN nor negative zero.
pub open spec fn is_neg_value_bits(b: u64) -> bool {
    !is_nan_bits(b) && cmp_key(b) < 0
}

/// A value strictly above zero.
pub open spec fn is_pos_value_bits(b: u64) -> bool {
    !is_nan_bits(b) && cmp_key(b) > 0
}

/// The bit pattern with the sign bit flipped: IEEE negation.
pub open spec fn neg_bits(b: u64) -> u64 {
    if b >= SIGN_BIT {
        (b - SIGN_BIT) as u64
    } else {
        (b + SIGN_BIT) as u64
    }
}

/// Clears the sign bit: the IEEE absolute value.
pub(crate) fn fp_abs(b: u64) -> (r: u64)
    ensures
        r == abs_bits(b),
{
    if b >= SIGN_BIT {
        b - SIGN_BIT
    } else {
        b
    }
}

/// Flips the sign bit: IEEE negation.
pub(crate) fn fp_neg(b: u64) -> (r: u64)
    ensures
        r == neg_bits(b),
{
    if b >= SIGN_BIT {
        b - SIGN_BIT
    } else {
        b + SIGN_BIT
    }
}

/// NaN test on the bit pattern.
pub(crate) fn fp_is_nan(b: u64) -> (r: bool)
    ensures
        r == is_nan_bits(b),
{
    fp_abs(b) > INF_BITS
}

/// Whether the value is strictly below zero.
pub(crate) fn fp_is_neg_value(b: u64) -> (r: bool)
    ensures
        r == is_neg_value_bits(b),
{
    !fp_is_nan(b) && b > SIGN_BIT
}

/// Whether the value is strictly above zero.
pub(crate) fn fp_is_pos_value(b: u64) -> (r: bool)
    ensures
        r == is_pos_value_bits(b),
{
    !fp_is_nan(b) && b < SIGN_BIT && b != 0
}

/// IEEE equality of two values.
pub(crate) fn fp_eq(a: u64, b: u64) -> (r: bool)
    ensures
        r == float_eq_bits(a, b),
{
    if fp_is_nan(a) || fp_is_nan(b) {
        false
    } else {
        a == b || (fp_abs(a) == 0 && fp_abs(b) == 0)
    }
}

/// IEEE comparison of two values.
pub(crate) fn fp_cmp(a: u64, b: u64) -> (r: Option<core::cmp::Ordering>)
    ensures
        r == float_cmp_bits(a, b),
{
    if fp_is_nan(a) || fp_is_nan(b) {
        return None;
    }
    let sa = a >= SIGN_BIT;
    let sb = b >= SIGN_BIT;
    let aa = fp_abs(a);
    let ab = fp_abs(b);
    if aa == 0 && ab == 0 {
        Some(core::cmp::Ordering::Equal)
    } else if sa != sb {
        if sa {
            Some(core::cmp::Ordering::Less)
        } else {
            Some(core::cmp::Ordering::Greater)
        }
    } else if sa {
        if aa > ab {
            Some(core::cmp::Ordering::Less)
        } else if aa == ab {
            Some(core::cmp::Ordering::Equal)
        } else {
            Some(core::cmp::Ordering::Greater)
        }
    } else {
        if aa < ab {
            Some(core::cmp::Ordering::Less)
        } else if aa == ab {
            Some(core::cmp::Ordering::Equal)
        } else {
            Some(core::cmp::Ordering::Greater)
        }
    }
}

/// One step of exponentiation by squaring over IEEE multiplications,
/// mirroring how an integer power of a binary64 value is computed: multiply
/// the accumulator in when the low bit of the exponent is set, square the
/// base while exponent bits remain.
pub open spec fn pow_loop_bits(base: u64, acc: u64, n: nat) -> u64
    decreases n,
{
    if n == 0 {
        acc
    } else {
        let acc2 = if n % 2 == 1 {
            mul_bits(acc, base)
        } else {
            acc
        };
        if n / 2 == 0 {
            acc2
        } else {
            pow_loop_bits(mul_bits(base, base), acc2, n / 2)
        }
    }
}

/// An integer power of a binary64 value: exponentiation by squaring starting
/// from one, with a single final reciprocal for negative exponents.
pub open spec fn powi_bits(x: u64, p: int) -> u64 {
    if p >= 0 {
        pow_loop_bits(x, ONE_BITS, p as nat)
    } else {
        div_bits(ONE_BITS, pow_loop_bits(x, ONE_BITS, (-p) as nat))
    }
}

/// Raises a value to an integer power by squaring, as `powi_bits` describes.
pub(crate) fn fp_powi(x: u64, p: i64) -> (r: u64)
    ensures
        r == powi_bits(x, p as int),
{
    let neg = p < 0;
    let mut n: u64 = if p < 0 {
        (-(p as i128)) as u64
    } else {
        p as u64
    };
    let ghost n0: nat = n as nat;
    proof {
        if p >= 0 {
            assert(n0 == p as int);
        } else {
            assert(n0 == -(p as int));
        }
    }
    let mut base = x;
    let mut acc = ONE_BITS;
    while n != 0
        invariant
            pow_loop_bits(base, acc, n as nat) == pow_loop_bits(x, ONE_BITS, n0),
        decreases n,
    {
        let ghost base_old = base;
        let ghost acc_old = acc;
        let ghost n_old = n as nat;
        proof {
            assert(pow_loop_bits(base_old, acc_old, n_old) == {
                let acc2 = if n_old % 2 == 1 {
                    mul_bits(acc_old, base_old)
                } else {
                    acc_old
                };
                if n_old / 2 == 0 {
                    acc2
                } else {
                    pow_loop_bits(mul_bits(base_old, base_old), acc2, n_old / 2)
                }
            });
        }
        if n % 2 == 1 {
            acc = fp_mul(acc, base);
        }
        n = n / 2;
        if n != 0 {
            base = fp_mul(base, base);
        }
    }
    assert(pow_loop_bits(base, acc, 0) == acc);
    if neg {
        fp_div(ONE_BITS, acc)
    } else {
        acc
    }
}

} // verus!
