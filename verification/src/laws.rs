//! Library-wide laws, each proved from the public contracts.
//!
//! The value halves of these statements live in floating point, where only
//! testing can speak; what is provable exactly — everything about exponent
//! vectors, acceptance, and comparability — is stated and proved here.

use vstd::prelude::*;
use vstd::std_specs::cmp::{PartialEqSpec, PartialOrdSpec};
use crate::dims::BASE_UNITS_SIZE;
use crate::fp::{mul_bits, div_bits, powi_bits};
use crate::parse::{spec_parse, spec_read_unit_power, fold_terms, dim_step, TermShape};
use crate::units::spec_lookup;
use crate::var::DimensionalVariable;

verus! {

/// Round trip: for every unit string `u` that parses and every value, the
/// variable built by `new` carries exactly the parse's vector, so converting
/// it back with `value_in(u)` passes the compatibility check and returns the
/// value multiplied and then divided by the same conversion factor.  (That
/// this quotient recovers the original value to within floating-point
/// precision is checked by tests.)
pub proof fn lemma_round_trip_accepts(u: Seq<u8>, v: u64, w: DimensionalVariable)
    requires
        spec_parse(u) is Ok,
        w.unit@ == spec_parse(u)->Ok_0.0,
        w.value == mul_bits(v, spec_parse(u)->Ok_0.1),
    ensures
        w.unit@ == spec_parse(u)->Ok_0.0,
        div_bits(w.value, spec_parse(u)->Ok_0.1) == div_bits(
            mul_bits(v, spec_parse(u)->Ok_0.1),
            spec_parse(u)->Ok_0.1,
        ),
{
}

/// Order independence of terms, vector half: folding the two-term lists
/// `[t1, t2]` and `[t2, t1]` of one side from the same starting vector
/// yields the same exponent vector whenever both succeed, because each
/// term's contribution is added independently.  (The conversion factor is
/// multiplied in term order; that reordering two terms leaves it unchanged
/// is a property of IEEE multiplication, exercised by tests.)
pub proof fn lemma_term_order_vector(t1: Seq<u8>, t2: Seq<u8>, mult: int, dim: Seq<int>, f: u64)
    requires
        dim.len() == BASE_UNITS_SIZE,
    ensures
        match (fold_terms(seq![t1, t2], mult, dim, f), fold_terms(seq![t2, t1], mult, dim, f)) {
            (Ok(r12), Ok(r21)) => r12.0 =~= r21.0,
            _ => true,
        },
{
    let none = Seq::<Seq<u8>>::empty();
    assert(none + seq![t1, t2] + none =~= seq![t1, t2]);
    assert(none + seq![t2, t1] + none =~= seq![t2, t1]);
    lemma_term_order_vector_general(none, t1, t2, none, mult, dim, f);
}

/// Dimension composition: multiplying by a quantity and dividing by it again
/// restores the exponent vector, slot by slot.  Together with the contracts
/// of `mul` and `div` this gives `(x * y) / y` the vector of `x`; that its
/// value comes back within tolerance is floating-point-approximate and is
/// checked by tests.
pub proof fn lemma_dimension_composition(x: DimensionalVariable, y: DimensionalVariable)
    ensures
        forall|i: int|
            #![trigger x.unit@[i], y.unit@[i]]
            0 <= i < BASE_UNITS_SIZE ==> (x.unit@[i] + y.unit@[i]) - y.unit@[i] == x.unit@[i],
{
}

/// Mismatch detection: two operands whose vectors differ are never equal,
/// and their three-valued comparison is "none" — no relational operator
/// holds in either direction.  The fallible add and subtract report a
/// dimension mismatch on exactly these operands, as their contracts state.
pub proof fn lemma_incomparable_across_dimensions(a: DimensionalVariable, b: DimensionalVariable)
    requires
        !(a.unit@ =~= b.unit@),
    ensures
        !a.eq_spec(&b),
        a.partial_cmp_spec(&b) is None,
{
}

/// A zero integer power is unitless whatever the operand: every slot of the
/// vector that `powi` produces with exponent zero is zero, and the value is
/// the bit pattern of one.
pub proof fn lemma_powi_zero_unitless(x: DimensionalVariable)
    ensures
        forall|i: int|
            #![trigger x.unit@[i]]
            0 <= i < BASE_UNITS_SIZE ==> x.unit@[i] * 0 == 0,
        powi_bits(x.value, 0) == crate::fp::ONE_BITS,
{
}

/// The fold's success, its error, and each term's vector contribution do not
/// depend on the running vector or factor: two folds of the same term list
/// and side fail alike, and when they succeed their vectors differ exactly
/// as their starting vectors do.
proof fn lemma_fold_contribution(
    terms: Seq<Seq<u8>>,
    mult: int,
    dima: Seq<int>,
    fa: u64,
    dimb: Seq<int>,
    fb: u64,
)
    ensures
        match (fold_terms(terms, mult, dima, fa), fold_terms(terms, mult, dimb, fb)) {
            (Ok(ra), Ok(rb)) => forall|i: int|
                0 <= i < BASE_UNITS_SIZE ==> #[trigger] ra.0[i] - dima[i] == rb.0[i] - dimb[i],
            (Err(ea), Err(eb)) => ea == eb,
            _ => false,
        },
    decreases terms.len(),
{
    if terms.len() > 0 {
        match spec_read_unit_power(terms[0]) {
            TermShape::Term(sym, p) => {
                match spec_lookup(sym) {
                    Some(entry) => {
                        let da = dim_step(dima, entry.base_unit@, p, mult);
                        let db = dim_step(dimb, entry.base_unit@, p, mult);
                        lemma_fold_contribution(
                            terms.drop_first(),
                            mult,
                            da,
                            mul_bits(fa, powi_bits(entry.conversion_factor, p * mult)),
                            db,
                            mul_bits(fb, powi_bits(entry.conversion_factor, p * mult)),
                        );
                        assert forall|i: int| 0 <= i < BASE_UNITS_SIZE implies #[trigger] da[i]
                            - dima[i] == db[i] - dimb[i] by {
                            assert(da[i] == dima[i] + entry.base_unit@[i] * p * mult);
                            assert(db[i] == dimb[i] + entry.base_unit@[i] * p * mult);
                        }
                    },
                    None => {
                    },
                }
            },
            _ => {
            },
        }
    }
}

/// Order independence for any two adjacent terms of one side, vector half:
/// folding `pre + [t1, t2] + suf` and `pre + [t2, t1] + suf` fails alike,
/// and when both succeed they yield the same exponent vector.
pub proof fn lemma_term_order_vector_general(
    pre: Seq<Seq<u8>>,
    t1: Seq<u8>,
    t2: Seq<u8>,
    suf: Seq<Seq<u8>>,
    mult: int,
    dim: Seq<int>,
    f: u64,
)
    requires
        dim.len() == BASE_UNITS_SIZE,
    ensures
        match (
            fold_terms(pre + seq![t1, t2] + suf, mult, dim, f),
            fold_terms(pre + seq![t2, t1] + suf, mult, dim, f),
        ) {
            (Ok(r12), Ok(r21)) => r12.0 =~= r21.0,
            (Err(e12), Err(e21)) => true,
            _ => false,
        },
    decreases pre.len(),
{
    let l12 = pre + seq![t1, t2] + suf;
    let l21 = pre + seq![t2, t1] + suf;
    if pre.len() == 0 {
        assert(l12 =~= seq![t1, t2] + suf);
        assert(l21 =~= seq![t2, t1] + suf);
        lemma_swap_head(t1, t2, suf, mult, dim, f);
    } else {
        assert(l12[0] == pre[0]);
        assert(l21[0] == pre[0]);
        assert(l12.drop_first() =~= pre.drop_first() + seq![t1, t2] + suf);
        assert(l21.drop_first() =~= pre.drop_first() + seq![t2, t1] + suf);
        match spec_read_unit_power(pre[0]) {
            TermShape::Term(sym, p) => {
                match spec_lookup(sym) {
                    Some(entry) => {
                        let d1 = dim_step(dim, entry.base_unit@, p, mult);
                        let f1 = mul_bits(f, powi_bits(entry.conversion_factor, p * mult));
                        assert(d1.len() == BASE_UNITS_SIZE);
                        assert(fold_terms(l12, mult, dim, f) == fold_terms(
                            pre.drop_first() + seq![t1, t2] + suf,
                            mult,
                            d1,
                            f1,
                        ));
                        assert(fold_terms(l21, mult, dim, f) == fold_terms(
                            pre.drop_first() + seq![t2, t1] + suf,
                            mult,
                            d1,
                            f1,
                        ));
                        lemma_term_order_vector_general(
                            pre.drop_first(),
                            t1,
                            t2,
                            suf,
                            mult,
                            d1,
                            f1,
                        );
                    },
                    None => {
                    },
                }
            },
            _ => {
            },
        }
    }
}

/// Swapping the first two terms of a side keeps the vector: the two
/// contributions add independently, and what follows contributes the same
/// either way.  When either term is invalid, both orders fail.
proof fn lemma_swap_head(t1: Seq<u8>, t2: Seq<u8>, suf: Seq<Seq<u8>>, mult: int, dim: Seq<int>, f: u64)
    requires
        dim.len() == BASE_UNITS_SIZE,
    ensures
        match (
            fold_terms(seq![t1, t2] + suf, mult, dim, f),
            fold_terms(seq![t2, t1] + suf, mult, dim, f),
        ) {
            (Ok(r12), Ok(r21)) => r12.0 =~= r21.0,
            (Err(e12), Err(e21)) => true,
            _ => false,
        },
{
    let l12 = seq![t1, t2] + suf;
    let l21 = seq![t2, t1] + suf;
    assert(l12[0] == t1);
    assert(l21[0] == t2);
    assert(l12.drop_first() =~= seq![t2] + suf);
    assert(l21.drop_first() =~= seq![t1] + suf);
    assert((seq![t2] + suf)[0] == t2);
    assert((seq![t1] + suf)[0] == t1);
    assert((seq![t2] + suf).drop_first() =~= suf);
    assert((seq![t1] + suf).drop_first() =~= suf);
    match (spec_read_unit_power(t1), spec_read_unit_power(t2)) {
        (TermShape::Term(s1, p1), TermShape::Term(s2, p2)) => {
            match (spec_lookup(s1), spec_lookup(s2)) {
                (Some(u1), Some(u2)) => {
                    let d1 = dim_step(dim, u1.base_unit@, p1, mult);
                    let d2 = dim_step(dim, u2.base_unit@, p2, mult);
                    let d12 = dim_step(d1, u2.base_unit@, p2, mult);
                    let d21 = dim_step(d2, u1.base_unit@, p1, mult);
                    let g1 = mul_bits(f, powi_bits(u1.conversion_factor, p1 * mult));
                    let g2 = mul_bits(f, powi_bits(u2.conversion_factor, p2 * mult));
                    let g12 = mul_bits(g1, powi_bits(u2.conversion_factor, p2 * mult));
                    let g21 = mul_bits(g2, powi_bits(u1.conversion_factor, p1 * mult));
                    assert(fold_terms(l12, mult, dim, f) == fold_terms(
                        seq![t2] + suf,
                        mult,
                        d1,
                        g1,
                    ));
                    assert(fold_terms(seq![t2] + suf, mult, d1, g1) == fold_terms(
                        suf,
                        mult,
                        d12,
                        g12,
                    ));
                    assert(fold_terms(l21, mult, dim, f) == fold_terms(
                        seq![t1] + suf,
                        mult,
                        d2,
                        g2,
                    ));
                    assert(fold_terms(seq![t1] + suf, mult, d2, g2) == fold_terms(
                        suf,
                        mult,
                        d21,
                        g21,
                    ));
                    assert(d12 =~= d21);
                    lemma_fold_contribution(suf, mult, d12, g12, d21, g21);
                    match (fold_terms(suf, mult, d12, g12), fold_terms(suf, mult, d21, g21)) {
                        (Ok(ra), Ok(rb)) => {
                            assert(ra.0 =~= rb.0) by {
                                lemma_fold_len(suf, mult, d12, g12);
                                lemma_fold_len(suf, mult, d21, g21);
                                assert forall|i: int| 0 <= i < ra.0.len() implies
                                    #[trigger] ra.0[i] == rb.0[i] by {
                                    assert(ra.0[i] - d12[i] == rb.0[i] - d21[i]);
                                    assert(d12[i] == d21[i]);
                                }
                            }
                        },
                        _ => {
                        },
                    }
                },
                (Some(u1), None) => {
                    let d1 = dim_step(dim, u1.base_unit@, p1, mult);
                    let g1 = mul_bits(f, powi_bits(u1.conversion_factor, p1 * mult));
                    assert(fold_terms(l12, mult, dim, f) == fold_terms(
                        seq![t2] + suf,
                        mult,
                        d1,
                        g1,
                    ));
                    assert(fold_terms(seq![t2] + suf, mult, d1, g1) is Err);
                    assert(fold_terms(l21, mult, dim, f) is Err);
                },
                (None, Some(u2)) => {
                    let d2 = dim_step(dim, u2.base_unit@, p2, mult);
                    let g2 = mul_bits(f, powi_bits(u2.conversion_factor, p2 * mult));
                    assert(fold_terms(l21, mult, dim, f) == fold_terms(
                        seq![t1] + suf,
                        mult,
                        d2,
                        g2,
                    ));
                    assert(fold_terms(seq![t1] + suf, mult, d2, g2) is Err);
                    assert(fold_terms(l12, mult, dim, f) is Err);
                },
                (None, None) => {
                    assert(fold_terms(l12, mult, dim, f) is Err);
                    assert(fold_terms(l21, mult, dim, f) is Err);
                },
            }
        },
        (TermShape::Term(s1, p1), _) => {
            // The second term is invalid: both orders fail on it or earlier.
            match spec_lookup(s1) {
                Some(u1) => {
                    let d1 = dim_step(dim, u1.base_unit@, p1, mult);
                    let g1 = mul_bits(f, powi_bits(u1.conversion_factor, p1 * mult));
                    assert(fold_terms(l12, mult, dim, f) == fold_terms(
                        seq![t2] + suf,
                        mult,
                        d1,
                        g1,
                    ));
                    assert(fold_terms(seq![t2] + suf, mult, d1, g1) is Err);
                    assert(fold_terms(l21, mult, dim, f) is Err);
                },
                None => {
                    assert(fold_terms(l12, mult, dim, f) is Err);
                    assert(fold_terms(l21, mult, dim, f) is Err);
                },
            }
        },
        (_, TermShape::Term(s2, p2)) => {
            // The first term is invalid: both orders fail on it or earlier.
            match spec_lookup(s2) {
                Some(u2) => {
                    let d2 = dim_step(dim, u2.base_unit@, p2, mult);
                    let g2 = mul_bits(f, powi_bits(u2.conversion_factor, p2 * mult));
                    assert(fold_terms(l21, mult, dim, f) == fold_terms(
                        seq![t1] + suf,
                        mult,
                        d2,
                        g2,
                    ));
                    assert(fold_terms(seq![t1] + suf, mult, d2, g2) is Err);
                    assert(fold_terms(l12, mult, dim, f) is Err);
                },
                None => {
                    assert(fold_terms(l12, mult, dim, f) is Err);
                    assert(fold_terms(l21, mult, dim, f) is Err);
                },
            }
        },
        (_, _) => {
            assert(fold_terms(l12, mult, dim, f) is Err);
            assert(fold_terms(l21, mult, dim, f) is Err);
        },
    }
}

/// A successful fold's vector keeps the width of its starting vector.
proof fn lemma_fold_len(terms: Seq<Seq<u8>>, mult: int, dim: Seq<int>, f: u64)
    requires
        dim.len() == BASE_UNITS_SIZE,
    ensures
        fold_terms(terms, mult, dim, f) matches Ok(r) ==> r.0.len() == BASE_UNITS_SIZE,
    decreases terms.len(),
{
    if terms.len() > 0 {
        match spec_read_unit_power(terms[0]) {
            TermShape::Term(sym, p) => {
                match spec_lookup(sym) {
                    Some(entry) => {
                        lemma_fold_len(
                            terms.drop_first(),
                            mult,
                            dim_step(dim, entry.base_unit@, p, mult),
                            mul_bits(f, powi_bits(entry.conversion_factor, p * mult)),
                        );
                    },
                    None => {
                    },
                }
            },
            _ => {
            },
        }
    }
}

} // verus!


