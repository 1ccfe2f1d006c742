//! Base-dimension exponent vectors.
//!
//! A physical dimension is a fixed-length vector of signed exponents, one slot
//! per SI base dimension: length, mass, time, temperature, current, amount of
//! substance, luminous intensity.  Square roots may halve an odd exponent, so
//! exponents can be half-integers; each slot therefore stores *twice* the
//! exponent (a whole number of halves), which represents every reachable
//! vector exactly.

use vstd::prelude::*;

verus! {

/// Number of SI base dimensions tracked by every exponent vector.
pub const BASE_UNITS_SIZE: usize = 7;

/// A base-dimension exponent vector.
///
/// `halves[i]` is twice the exponent of the `i`-th SI base dimension, so a
/// plain meter is `[2, 0, 0, 0, 0, 0, 0]` and the square root of a volume
/// (`m^1.5`) is `[3, 0, 0, 0, 0, 0, 0]`.  Two vectors describe the same
/// physical dimension exactly when they are equal element-wise.
#[derive(Clone, Copy, Debug)]
pub struct Dim {
    pub halves: [i128; BASE_UNITS_SIZE],
}

impl View for Dim {
    type V = Seq<int>;

    open spec fn view(&self) -> Seq<int> {
        Seq::new(BASE_UNITS_SIZE as nat, |i: int| self.halves[i] as int)
    }
}

impl PartialEq for Dim {
    fn eq(&self, other: &Dim) -> (r: bool)
        ensures
            r == (self@ =~= other@),
    {
        let mut i: usize = 0;
        while i < BASE_UNITS_SIZE
            invariant
                i <= BASE_UNITS_SIZE,
                forall|j: int| 0 <= j < i ==> self@[j] == other@[j],
            decreases BASE_UNITS_SIZE - i,
        {
            if self.halves[i] != other.halves[i] {
                assert(self@[i as int] != other@[i as int]);
                return false;
            }
            i = i + 1;
        }
        assert(self@ =~= other@);
        true
    }
}

impl Eq for Dim {

}

impl vstd::std_specs::cmp::PartialEqSpecImpl for Dim {
    open spec fn obeys_eq_spec() -> bool {
        true
    }

    open spec fn eq_spec(&self, other: &Dim) -> bool {
        self@ =~= other@
    }
}

impl Dim {
    /// The dimensionless vector: every exponent is zero.
    pub fn zero() -> (r: Dim)
        ensures
            r@ =~= Seq::new(BASE_UNITS_SIZE as nat, |i: int| 0int),
    {
        Dim { halves: [0, 0, 0, 0, 0, 0, 0] }
    }

    /// Whether every exponent is exactly zero (a unitless quantity).
    pub fn is_zero(&self) -> (r: bool)
        ensures
            r == (forall|i: int| 0 <= i < BASE_UNITS_SIZE ==> #[trigger] self@[i] == 0),
    {
        let mut i: usize = 0;
        while i < BASE_UNITS_SIZE
            invariant
                i <= BASE_UNITS_SIZE,
                forall|j: int| 0 <= j < i ==> #[trigger] self@[j] == 0,
            decreases BASE_UNITS_SIZE - i,
        {
            if self.halves[i] != 0 {
                assert(self@[i as int] != 0);
                return false;
            }
            i = i + 1;
        }
        true
    }
}

/// Element-wise sum of two exponent vectors: the dimension of a product of
/// quantities.
pub fn add_unit_exponents(a: &Dim, b: &Dim) -> (r: Dim)
    requires
        forall|i: int| 0 <= i < BASE_UNITS_SIZE ==> i128::MIN <= #[trigger] (a@[i] + b@[i])
            <= i128::MAX,
    ensures
        forall|i: int| 0 <= i < BASE_UNITS_SIZE ==> #[trigger] r@[i] == a@[i] + b@[i],
{
    let mut out: [i128; BASE_UNITS_SIZE] = [0, 0, 0, 0, 0, 0, 0];
    let mut i: usize = 0;
    while i < BASE_UNITS_SIZE
        invariant
            i <= BASE_UNITS_SIZE,
            forall|k: int| 0 <= k < BASE_UNITS_SIZE ==> i128::MIN <= #[trigger] (a@[k] + b@[k])
                <= i128::MAX,
            forall|j: int| 0 <= j < i ==> #[trigger] (out[j] as int) == a@[j] + b@[j],
        decreases BASE_UNITS_SIZE - i,
    {
        proof {
            assert(i128::MIN <= a@[i as int] + b@[i as int] <= i128::MAX);
        }
        out[i] = a.halves[i] + b.halves[i];
        i = i + 1;
    }
    let r = Dim { halves: out };
    assert forall|i: int| 0 <= i < BASE_UNITS_SIZE implies #[trigger] r@[i] == a@[i] + b@[i] by {
        assert(out[i] as int == a@[i] + b@[i]);
    }
    r
}

/// Element-wise difference of two exponent vectors: the dimension of a
/// quotient of quantities.
pub fn sub_unit_exponents(a: &Dim, b: &Dim) -> (r: Dim)
    requires
        forall|i: int| 0 <= i < BASE_UNITS_SIZE ==> i128::MIN <= #[trigger] (a@[i] - b@[i])
            <= i128::MAX,
    ensures
        forall|i: int| 0 <= i < BASE_UNITS_SIZE ==> #[trigger] r@[i] == a@[i] - b@[i],
{
    let mut out: [i128; BASE_UNITS_SIZE] = [0, 0, 0, 0, 0, 0, 0];
    let mut i: usize = 0;
    while i < BASE_UNITS_SIZE
        invariant
            i <= BASE_UNITS_SIZE,
            forall|k: int| 0 <= k < BASE_UNITS_SIZE ==> i128::MIN <= #[trigger] (a@[k] - b@[k])
                <= i128::MAX,
            forall|j: int| 0 <= j < i ==> #[trigger] (out[j] as int) == a@[j] - b@[j],
        decreases BASE_UNITS_SIZE - i,
    {
        proof {
            assert(i128::MIN <= a@[i as int] - b@[i as int] <= i128::MAX);
        }
        out[i] = a.halves[i] - b.halves[i];
        i = i + 1;
    }
    let r = Dim { halves: out };
    assert forall|i: int| 0 <= i < BASE_UNITS_SIZE implies #[trigger] r@[i] == a@[i] - b@[i] by {
        assert(out[i] as int == a@[i] - b@[i]);
    }
    r
}

} // verus!
