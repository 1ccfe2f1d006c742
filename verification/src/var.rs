//! The dimensional arithmetic engine.
//!
//! A [`DimensionalVariable`] pairs a numeric value, held as an IEEE-754
//! binary64 bit pattern and always expressed in SI base units, with its
//! base-dimension exponent vector.  Construction parses a unit string and
//! scales the value by the derived conversion factor; every later operation
//! combines values and vectors without re-parsing, and checks vector
//! equality wherever commensurability is required.

use vstd::prelude::*;
use vstd::string::StringSliceAdditionalSpecFns;
use vstd::std_specs::cmp::PartialOrdSpec;
use crate::dims::{Dim, BASE_UNITS_SIZE, add_unit_exponents, sub_unit_exponents};
use crate::errors::{DvError, ParseError};
use crate::fp::{
    add_bits, sub_bits, mul_bits, div_bits, powi_bits, neg_bits, abs_bits, float_eq_bits,
    float_cmp_bits, is_nan_bits, is_neg_value_bits, cmp_key, fp_add, fp_sub,
    fp_mul, fp_div, fp_powi, fp_neg, fp_abs, fp_eq, fp_cmp, fp_is_nan, fp_is_neg_value,
    fp_is_pos_value,
};
use crate::parse::{spec_parse, err_matches, unit_str_to_base_unit, parse_bound};

verus! {

/// A value below or equal to zero (and not NaN): the domain the logarithms
/// reject.
pub open spec fn le_zero_bits(b: u64) -> bool {
    !is_nan_bits(b) && cmp_key(b) <= 0
}

/// Whether an exponent vector is all zeros: a unitless quantity.
pub open spec fn spec_unitless(d: Seq<int>) -> bool {
    forall|i: int| 0 <= i < BASE_UNITS_SIZE ==> #[trigger] d[i] == 0
}

/// A physical quantity: a binary64 value in SI base units and its
/// base-dimension exponent vector.
pub struct DimensionalVariable {
    /// The SI-base-scaled value, as a binary64 bit pattern.
    pub value: u64,
    /// The base-dimension exponent vector.
    pub unit: Dim,
}

impl DimensionalVariable {
    /// Creates a new variable with the given value (as binary64 bits) and
    /// unit string.
    ///
    /// Rules for writing the unit string:
    /// - Use a single `/` as a delimiter between the numerator and denominator.
    /// - Use `-` as a delimiter between individual units.
    /// - Exponents can be written with `^` (`m^2`) or without (`m2`).
    /// - Inverses can be written as negative exponents or in the denominator
    ///   (`m^-2` or `1/m^2`).
    ///
    /// The stored value is the given value times the conversion factor that
    /// the unit string denotes.  Returns an error if the unit string is
    /// invalid or contains unknown units.
    pub fn new(value: u64, unit_str: &str) -> (r: Result<Self, ParseError>)
        ensures
            match spec_parse(unit_str.spec_bytes()) {
                Ok((d, f)) => r matches Ok(v) && v.unit@ == d && v.value == mul_bits(value, f),
                Err(es) => r matches Err(e) && err_matches(e, es),
            },
            r matches Ok(v) ==> forall|i: int|
                0 <= i < BASE_UNITS_SIZE ==> -parse_bound() <= #[trigger] v.unit@[i]
                    <= parse_bound(),
    {
        match unit_str_to_base_unit(unit_str) {
            Err(e) => Err(e),
            Ok(p) => Ok(
                DimensionalVariable { value: fp_mul(value, p.1), unit: p.0 },
            ),
        }
    }

    /// The SI-base-scaled value, as a binary64 bit pattern.
    pub fn value(&self) -> (r: u64)
        ensures
            r == self.value,
    {
        self.value
    }

    /// The base-dimension exponent vector.
    pub fn unit(&self) -> (r: Dim)
        ensures
            r@ == self.unit@,
    {
        self.unit
    }

    /// Whether the variable is unitless (all base exponents are zero).
    pub fn is_unitless(&self) -> (r: bool)
        ensures
            r == spec_unitless(self.unit@),
    {
        self.unit.is_zero()
    }

    /// Converts the value to the given unit.  Fails on a parse error, and
    /// with a dimension mismatch when the target unit's vector differs from
    /// this variable's.
    pub fn value_in(&self, unit_str: &str) -> (r: Result<u64, DvError>)
        ensures
            match spec_parse(unit_str.spec_bytes()) {
                Ok((d, f)) => {
                    &&& self.unit@ == d ==> (r matches Ok(v) && v == div_bits(self.value, f))
                    &&& self.unit@ != d ==> (r matches Err(e) && e == DvError::DimensionMismatch)
                },
                Err(es) => r matches Err(e) && e matches DvError::Parse(pe) && err_matches(
                    pe,
                    es,
                ),
            },
    {
        match unit_str_to_base_unit(unit_str) {
            Err(e) => Err(DvError::Parse(e)),
            Ok(p) => {
                if self.unit == p.0 {
                    Ok(fp_div(self.value, p.1))
                } else {
                    Err(DvError::DimensionMismatch)
                }
            },
        }
    }

    /// Fallible addition: the vectors must be equal; the values add.
    pub fn try_add(&self, other: &DimensionalVariable) -> (r: Result<
        DimensionalVariable,
        DvError,
    >)
        ensures
            self.unit@ == other.unit@ ==> (r matches Ok(v) && v.unit@ == self.unit@ && v.value
                == add_bits(self.value, other.value)),
            self.unit@ != other.unit@ ==> (r matches Err(e) && e == DvError::DimensionMismatch),
    {
        if self.unit == other.unit {
            Ok(
                DimensionalVariable {
                    value: fp_add(self.value, other.value),
                    unit: self.unit,
                },
            )
        } else {
            Err(DvError::DimensionMismatch)
        }
    }

    /// Fallible subtraction: the vectors must be equal; the values subtract.
    pub fn try_sub(&self, other: &DimensionalVariable) -> (r: Result<
        DimensionalVariable,
        DvError,
    >)
        ensures
            self.unit@ == other.unit@ ==> (r matches Ok(v) && v.unit@ == self.unit@ && v.value
                == sub_bits(self.value, other.value)),
            self.unit@ != other.unit@ ==> (r matches Err(e) && e == DvError::DimensionMismatch),
    {
        if self.unit == other.unit {
            Ok(
                DimensionalVariable {
                    value: fp_sub(self.value, other.value),
                    unit: self.unit,
                },
            )
        } else {
            Err(DvError::DimensionMismatch)
        }
    }

    /// Multiplication: always defined; values multiply, vectors add
    /// element-wise.
    pub fn mul(&self, other: &DimensionalVariable) -> (r: DimensionalVariable)
        requires
            forall|i: int|
                0 <= i < BASE_UNITS_SIZE ==> i128::MIN <= #[trigger] (self.unit@[i]
                    + other.unit@[i]) <= i128::MAX,
        ensures
            forall|i: int|
                0 <= i < BASE_UNITS_SIZE ==> #[trigger] r.unit@[i] == self.unit@[i]
                    + other.unit@[i],
            r.value == mul_bits(self.value, other.value),
    {
        DimensionalVariable {
            value: fp_mul(self.value, other.value),
            unit: add_unit_exponents(&self.unit, &other.unit),
        }
    }

    /// Division: always defined; values divide with IEEE semantics (a zero
    /// divisor yields an infinity or NaN, not an error), vectors subtract
    /// element-wise.
    pub fn div(&self, other: &DimensionalVariable) -> (r: DimensionalVariable)
        requires
            forall|i: int|
                0 <= i < BASE_UNITS_SIZE ==> i128::MIN <= #[trigger] (self.unit@[i]
                    - other.unit@[i]) <= i128::MAX,
        ensures
            forall|i: int|
                0 <= i < BASE_UNITS_SIZE ==> #[trigger] r.unit@[i] == self.unit@[i]
                    - other.unit@[i],
            r.value == div_bits(self.value, other.value),
    {
        DimensionalVariable {
            value: fp_div(self.value, other.value),
            unit: sub_unit_exponents(&self.unit, &other.unit),
        }
    }

    /// Multiplication by a dimensionless scalar (as binary64 bits): scales
    /// the value, keeps the vector.
    pub fn mul_scalar(&self, scalar: u64) -> (r: DimensionalVariable)
        ensures
            r.unit@ == self.unit@,
            r.value == mul_bits(self.value, scalar),
    {
        DimensionalVariable { value: fp_mul(self.value, scalar), unit: self.unit }
    }

    /// Division by a dimensionless scalar: scales the value, keeps the
    /// vector.
    pub fn div_scalar(&self, scalar: u64) -> (r: DimensionalVariable)
        ensures
            r.unit@ == self.unit@,
            r.value == div_bits(self.value, scalar),
    {
        DimensionalVariable { value: fp_div(self.value, scalar), unit: self.unit }
    }

    /// A scalar divided by this variable: the value is the quotient and the
    /// vector is negated.
    pub fn rdiv_scalar(&self, scalar: u64) -> (r: DimensionalVariable)
        requires
            forall|i: int| 0 <= i < BASE_UNITS_SIZE ==> i128::MIN < #[trigger] self.unit@[i],
        ensures
            forall|i: int|
                0 <= i < BASE_UNITS_SIZE ==> #[trigger] r.unit@[i] == -self.unit@[i],
            r.value == div_bits(scalar, self.value),
    {
        let zero = Dim::zero();
        proof {
            assert forall|i: int| 0 <= i < BASE_UNITS_SIZE implies i128::MIN <= #[trigger] (
            zero@[i] - self.unit@[i]) <= i128::MAX by {
                assert(zero@[i] == 0);
            }
        }
        let unit = sub_unit_exponents(&zero, &self.unit);
        proof {
            assert forall|i: int| 0 <= i < BASE_UNITS_SIZE implies #[trigger] unit@[i]
                == -self.unit@[i] by {
                assert(zero@[i] == 0);
            }
        }
        DimensionalVariable { value: fp_div(scalar, self.value), unit }
    }

    /// Raises to an integer power: the value is taken to the power by
    /// squaring, every vector exponent is multiplied by it.  A zero exponent
    /// yields the unitless value one whatever the input.
    pub fn powi(&self, exp: i32) -> (r: DimensionalVariable)
        requires
            forall|i: int|
                0 <= i < BASE_UNITS_SIZE ==> i128::MIN <= #[trigger] (self.unit@[i] * exp)
                    <= i128::MAX,
        ensures
            forall|i: int|
                0 <= i < BASE_UNITS_SIZE ==> #[trigger] r.unit@[i] == self.unit@[i] * exp,
            r.value == powi_bits(self.value, exp as int),
    {
        let mut out: [i128; BASE_UNITS_SIZE] = [0, 0, 0, 0, 0, 0, 0];
        let mut i: usize = 0;
        while i < BASE_UNITS_SIZE
            invariant
                i <= BASE_UNITS_SIZE,
                forall|k: int|
                    0 <= k < BASE_UNITS_SIZE ==> i128::MIN <= #[trigger] (self.unit@[k] * exp)
                        <= i128::MAX,
                forall|j: int| 0 <= j < i ==> #[trigger] (out[j] as int) == self.unit@[j] * exp,
            decreases BASE_UNITS_SIZE - i,
        {
            proof {
                assert(i128::MIN <= self.unit@[i as int] * exp <= i128::MAX);
            }
            out[i] = self.unit.halves[i] * (exp as i128);
            i = i + 1;
        }
        let unit = Dim { halves: out };
        assert forall|i: int| 0 <= i < BASE_UNITS_SIZE implies #[trigger] unit@[i] == self.unit@[i]
            * exp by {
            assert(out[i] as int == self.unit@[i] * exp);
        }
        DimensionalVariable { value: fp_powi(self.value, exp as i64), unit }
    }

    /// Domain check for a floating power: the operand must be unitless; the
    /// result of a float power is then unitless as well.
    pub fn powf_domain(&self) -> (r: Result<(), DvError>)
        ensures
            spec_unitless(self.unit@) ==> r matches Ok(u),
            !spec_unitless(self.unit@) ==> (r matches Err(e) && e == DvError::NotUnitless),
    {
        if self.is_unitless() {
            Ok(())
        } else {
            Err(DvError::NotUnitless)
        }
    }

    /// The unit of this variable's square root, after the domain checks: the
    /// value must not be below zero, and every exponent must be halvable
    /// (finer than half-integer exponents are not representable).  On
    /// success every slot of the result is exactly half of this one's.
    pub fn sqrt_unit(&self) -> (r: Result<Dim, DvError>)
        ensures
            is_neg_value_bits(self.value) ==> (r matches Err(e) && e == DvError::NegativeSqrt),
            !is_neg_value_bits(self.value) && (exists|i: int|
                0 <= i < BASE_UNITS_SIZE && #[trigger] (self.unit@[i] % 2) != 0) ==> (r matches Err(
                e,
            ) && e == DvError::FractionalExponent),
            !is_neg_value_bits(self.value) && (forall|i: int|
                0 <= i < BASE_UNITS_SIZE ==> #[trigger] (self.unit@[i] % 2) == 0) ==> (r matches Ok(
                d,
            ) && forall|i: int| 0 <= i < BASE_UNITS_SIZE ==> #[trigger] d@[i] * 2 == self.unit@[i]),
    {
        if fp_is_neg_value(self.value) {
            return Err(DvError::NegativeSqrt);
        }
        let mut out: [i128; BASE_UNITS_SIZE] = [0, 0, 0, 0, 0, 0, 0];
        let mut i: usize = 0;
        while i < BASE_UNITS_SIZE
            invariant
                i <= BASE_UNITS_SIZE,
                !is_neg_value_bits(self.value),
                forall|j: int| 0 <= j < i ==> #[trigger] (self.unit@[j] % 2) == 0,
                forall|j: int| 0 <= j < i ==> #[trigger] (out[j] as int) * 2 == self.unit@[j],
            decreases BASE_UNITS_SIZE - i,
        {
            if self.unit.halves[i] % 2 != 0 {
                assert(self.unit@[i as int] % 2 != 0);
                return Err(DvError::FractionalExponent);
            }
            out[i] = self.unit.halves[i] / 2;
            i = i + 1;
        }
        let d = Dim { halves: out };
        assert forall|i: int| 0 <= i < BASE_UNITS_SIZE implies #[trigger] d@[i] * 2
            == self.unit@[i] by {
            assert(out[i] as int * 2 == self.unit@[i]);
        }
        Ok(d)
    }

    /// Domain check for the natural logarithm: unitless, value above zero.
    pub fn ln_domain(&self) -> (r: Result<(), DvError>)
        ensures
            !spec_unitless(self.unit@) ==> (r matches Err(e) && e == DvError::NotUnitless),
            spec_unitless(self.unit@) && le_zero_bits(self.value) ==> (r matches Err(e) && e
                == DvError::NonPositive),
            spec_unitless(self.unit@) && !le_zero_bits(self.value) ==> r matches Ok(u),
    {
        if !self.is_unitless() {
            return Err(DvError::NotUnitless);
        }
        if !fp_is_nan(self.value) && !fp_is_pos_value(self.value) {
            return Err(DvError::NonPositive);
        }
        Ok(())
    }

    /// Domain check for the base-2 logarithm: unitless, value above zero.
    pub fn log2_domain(&self) -> (r: Result<(), DvError>)
        ensures
            !spec_unitless(self.unit@) ==> (r matches Err(e) && e == DvError::NotUnitless),
            spec_unitless(self.unit@) && le_zero_bits(self.value) ==> (r matches Err(e) && e
                == DvError::NonPositive),
            spec_unitless(self.unit@) && !le_zero_bits(self.value) ==> r matches Ok(u),
    {
        if !self.is_unitless() {
            return Err(DvError::NotUnitless);
        }
        if !fp_is_nan(self.value) && !fp_is_pos_value(self.value) {
            return Err(DvError::NonPositive);
        }
        Ok(())
    }

    /// Domain check for the base-10 logarithm: unitless, value above zero.
    pub fn log10_domain(&self) -> (r: Result<(), DvError>)
        ensures
            !spec_unitless(self.unit@) ==> (r matches Err(e) && e == DvError::NotUnitless),
            spec_unitless(self.unit@) && le_zero_bits(self.value) ==> (r matches Err(e) && e
                == DvError::NonPositive),
            spec_unitless(self.unit@) && !le_zero_bits(self.value) ==> r matches Ok(u),
    {
        if !self.is_unitless() {
            return Err(DvError::NotUnitless);
        }
        if !fp_is_nan(self.value) && !fp_is_pos_value(self.value) {
            return Err(DvError::NonPositive);
        }
        Ok(())
    }

    /// Domain check for the sine: the operand must be unitless (radians).
    pub fn sin_domain(&self) -> (r: Result<(), DvError>)
        ensures
            spec_unitless(self.unit@) ==> r matches Ok(u),
            !spec_unitless(self.unit@) ==> (r matches Err(e) && e == DvError::NotUnitless),
    {
        if self.is_unitless() {
            Ok(())
        } else {
            Err(DvError::NotUnitless)
        }
    }

    /// Domain check for the cosine: the operand must be unitless (radians).
    pub fn cos_domain(&self) -> (r: Result<(), DvError>)
        ensures
            spec_unitless(self.unit@) ==> r matches Ok(u),
            !spec_unitless(self.unit@) ==> (r matches Err(e) && e == DvError::NotUnitless),
    {
        if self.is_unitless() {
            Ok(())
        } else {
            Err(DvError::NotUnitless)
        }
    }

    /// Domain check for the tangent: the operand must be unitless (radians).
    pub fn tan_domain(&self) -> (r: Result<(), DvError>)
        ensures
            spec_unitless(self.unit@) ==> r matches Ok(u),
            !spec_unitless(self.unit@) ==> (r matches Err(e) && e == DvError::NotUnitless),
    {
        if self.is_unitless() {
            Ok(())
        } else {
            Err(DvError::NotUnitless)
        }
    }

    /// Negates the value, keeping the vector.
    pub fn neg(&self) -> (r: DimensionalVariable)
        ensures
            r.unit@ == self.unit@,
            r.value == neg_bits(self.value),
    {
        DimensionalVariable { value: fp_neg(self.value), unit: self.unit }
    }

    /// The absolute value, keeping the vector.
    pub fn abs(&self) -> (r: DimensionalVariable)
        ensures
            r.unit@ == self.unit@,
            r.value == abs_bits(self.value),
    {
        DimensionalVariable { value: fp_abs(self.value), unit: self.unit }
    }
}

impl PartialEq for DimensionalVariable {
    /// Equal exactly when the vectors are equal and the values are equal as
    /// IEEE values (so NaN is never equal, and the two zeros are).
    fn eq(&self, other: &DimensionalVariable) -> (r: bool)
        ensures
            r == (self.unit@ =~= other.unit@ && float_eq_bits(self.value, other.value)),
    {
        if self.unit == other.unit {
            fp_eq(self.value, other.value)
        } else {
            false
        }
    }
}

impl vstd::std_specs::cmp::PartialEqSpecImpl for DimensionalVariable {
    open spec fn obeys_eq_spec() -> bool {
        true
    }

    open spec fn eq_spec(&self, other: &DimensionalVariable) -> bool {
        self.unit@ =~= other.unit@ && float_eq_bits(self.value, other.value)
    }
}

impl PartialOrd for DimensionalVariable {
    /// Ordered only when the vectors are equal; across dimensions there is
    /// no ordering at all, and NaN values are ordered with nothing.
    fn partial_cmp(&self, other: &DimensionalVariable) -> (r: Option<core::cmp::Ordering>) {
        if self.unit == other.unit {
            fp_cmp(self.value, other.value)
        } else {
            None
        }
    }
}

impl vstd::std_specs::cmp::PartialOrdSpecImpl for DimensionalVariable {
    open spec fn obeys_partial_cmp_spec() -> bool {
        true
    }

    open spec fn partial_cmp_spec(&self, other: &DimensionalVariable) -> Option<
        core::cmp::Ordering,
    > {
        if self.unit@ =~= other.unit@ {
            float_cmp_bits(self.value, other.value)
        } else {
            None
        }
    }
}

} // verus!
