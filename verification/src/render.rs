//! Rendering a unit expression from an exponent vector.
//!
//! The exponent vector is the single source of truth: positive-exponent
//! terms are joined by `*`, then, if any exponent is negative, a `/` and the
//! negative-exponent terms with their signs dropped.  A unitless vector
//! renders as `(unitless)`, a denominator-only vector as `1/...`.  Exponents
//! of one are left off; half-integer exponents render as `.5` fractions
//! (`m^1.5`).

use vstd::prelude::*;
use crate::dims::{Dim, BASE_UNITS_SIZE};

verus! {

/// The character of one decimal digit.
pub open spec fn digit_char(d: int) -> char
    recommends
        0 <= d <= 9,
{
    ((48 + d) as u8) as char
}

/// The decimal spelling of a whole number.
pub open spec fn dec_chars(n: nat) -> Seq<char>
    decreases n,
{
    if n < 10 {
        seq![digit_char(n as int)]
    } else {
        dec_chars(n / 10).push(digit_char((n % 10) as int))
    }
}

/// The symbol of the `i`-th SI base dimension.
pub open spec fn symbol_chars(i: int) -> Seq<char> {
    if i == 0 {
        seq!['m']
    } else if i == 1 {
        seq!['k', 'g']
    } else if i == 2 {
        seq!['s']
    } else if i == 3 {
        seq!['K']
    } else if i == 4 {
        seq!['A']
    } else if i == 5 {
        seq!['m', 'o', 'l']
    } else if i == 6 {
        seq!['c', 'd']
    } else {
        Seq::empty()
    }
}

/// The spelling of a positive exponent given in halves: the whole part, and
/// `.5` when the exponent is a half-integer.
pub open spec fn exp_chars(h: nat) -> Seq<char> {
    if h % 2 == 0 {
        dec_chars(h / 2)
    } else {
        dec_chars(h / 2) + seq!['.', '5']
    }
}

/// One rendered term: the symbol, and `^` with the exponent when it is not
/// one.
pub open spec fn term_chars(i: int, h: nat) -> Seq<char> {
    if h == 2 {
        symbol_chars(i)
    } else {
        symbol_chars(i) + seq!['^'] + exp_chars(h)
    }
}

/// One side of the rendered expression, scanning slots from `i` up: the
/// numerator collects positive exponents, the denominator the negative ones
/// (sign dropped), with `*` before every term but the first.
pub open spec fn side_chars(d: Seq<int>, i: int, positive: bool, first: bool) -> Seq<char>
    decreases BASE_UNITS_SIZE - i,
{
    if i < 0 || i >= BASE_UNITS_SIZE {
        Seq::empty()
    } else {
        let h = if positive {
            d[i]
        } else {
            -d[i]
        };
        if h > 0 {
            (if first {
                term_chars(i, h as nat)
            } else {
                seq!['*'] + term_chars(i, h as nat)
            }) + side_chars(d, i + 1, positive, false)
        } else {
            side_chars(d, i + 1, positive, first)
        }
    }
}

/// The whole rendered unit expression of an exponent vector.
pub open spec fn unit_chars(d: Seq<int>) -> Seq<char> {
    let nu = side_chars(d, 0, true, true);
    let de = side_chars(d, 0, false, true);
    if nu.len() == 0 && de.len() == 0 {
        seq!['(', 'u', 'n', 'i', 't', 'l', 'e', 's', 's', ')']
    } else if de.len() == 0 {
        nu
    } else if nu.len() == 0 {
        seq!['1', '/'] + de
    } else {
        nu + seq!['/'] + de
    }
}

/// One decimal digit as text.
fn digit_str(d: u8) -> (r: &'static str)
    requires
        d <= 9,
    ensures
        r@ == seq![digit_char(d as int)],
{
    proof {
        reveal_strlit("0");
        reveal_strlit("1");
        reveal_strlit("2");
        reveal_strlit("3");
        reveal_strlit("4");
        reveal_strlit("5");
        reveal_strlit("6");
        reveal_strlit("7");
        reveal_strlit("8");
        reveal_strlit("9");
    }
    match d {
        0 => "0",
        1 => "1",
        2 => "2",
        3 => "3",
        4 => "4",
        5 => "5",
        6 => "6",
        7 => "7",
        8 => "8",
        _ => {
            assert(d == 9);
            "9"
        },
    }
}

/// The decimal spelling of a whole number.
fn dec_string(n: u128) -> (r: String)
    ensures
        r@ == dec_chars(n as nat),
    decreases n,
{
    if n < 10 {
        String::from_str(digit_str(n as u8))
    } else {
        let mut s = dec_string(n / 10);
        s.append(digit_str((n % 10) as u8));
        assert(s@ == dec_chars((n / 10) as nat).push(digit_char((n % 10) as int)));
        s
    }
}

/// The symbol of the `i`-th SI base dimension.
fn symbol_str(i: usize) -> (r: &'static str)
    requires
        i < BASE_UNITS_SIZE,
    ensures
        r@ == symbol_chars(i as int),
{
    proof {
        reveal_strlit("m");
        reveal_strlit("kg");
        reveal_strlit("s");
        reveal_strlit("K");
        reveal_strlit("A");
        reveal_strlit("mol");
        reveal_strlit("cd");
    }
    match i {
        0 => "m",
        1 => "kg",
        2 => "s",
        3 => "K",
        4 => "A",
        5 => "mol",
        _ => {
            assert(i == 6);
            "cd"
        },
    }
}

/// Appends one rendered term to the output.
fn push_term(out: &mut String, i: usize, h: u128)
    requires
        i < BASE_UNITS_SIZE,
        h > 0,
    ensures
        final(out)@ == old(out)@ + term_chars(i as int, h as nat),
{
    out.append(symbol_str(i));
    if h != 2 {
        proof {
            reveal_strlit("^");
            reveal_strlit(".5");
        }
        out.append("^");
        assert("^"@ =~= seq!['^']);
        let whole = dec_string(h / 2);
        out.append(whole.as_str());
        if h % 2 == 1 {
            out.append(".5");
            assert(".5"@ =~= seq!['.', '5']);
        }
        assert(out@ =~= old(out)@ + term_chars(i as int, h as nat));
    } else {
        assert(out@ =~= old(out)@ + term_chars(i as int, h as nat));
    }
}

/// Builds one side of the expression by scanning the slots upward.
fn build_side(d: &Dim, positive: bool) -> (r: String)
    requires
        forall|i: int| 0 <= i < BASE_UNITS_SIZE ==> i128::MIN < #[trigger] d@[i],
    ensures
        r@ == side_chars(d@, 0, positive, true),
{
    let mut out = String::new();
    let mut first = true;
    let mut i: usize = 0;
    while i < BASE_UNITS_SIZE
        invariant
            i <= BASE_UNITS_SIZE,
            forall|k: int| 0 <= k < BASE_UNITS_SIZE ==> i128::MIN < #[trigger] d@[k],
            side_chars(d@, 0, positive, true) == out@ + side_chars(d@, i as int, positive, first),
        decreases BASE_UNITS_SIZE - i,
    {
        let h: i128 = if positive {
            d.halves[i]
        } else {
            -d.halves[i]
        };
        if h > 0 {
            if !first {
                proof {
                    reveal_strlit("*");
                }
                out.append("*");
                assert("*"@ =~= seq!['*']);
            }
            push_term(&mut out, i, h as u128);
            proof {
                assert(side_chars(d@, i as int, positive, first) == (if first {
                    term_chars(i as int, h as nat)
                } else {
                    seq!['*'] + term_chars(i as int, h as nat)
                }) + side_chars(d@, i as int + 1, positive, false));
            }
            first = false;
        } else {
            proof {
                assert(side_chars(d@, i as int, positive, first) == side_chars(
                    d@,
                    i as int + 1,
                    positive,
                    first,
                ));
            }
        }
        i = i + 1;
    }
    assert(side_chars(d@, BASE_UNITS_SIZE as int, positive, first) =~= Seq::<char>::empty());
    assert(out@ =~= side_chars(d@, 0, positive, true));
    out
}

/// Renders the unit expression that an exponent vector denotes, as
/// `unit_chars` prescribes: for example `m*kg/s^2` for a force and
/// `(unitless)` for the zero vector.
pub fn unit_string(d: &Dim) -> (r: String)
    requires
        forall|i: int| 0 <= i < BASE_UNITS_SIZE ==> i128::MIN < #[trigger] d@[i],
    ensures
        r@ == unit_chars(d@),
{
    let nu = build_side(d, true);
    let de = build_side(d, false);
    if nu.as_str().is_empty() && de.as_str().is_empty() {
        proof {
            reveal_strlit("(unitless)");
        }
        let r = String::from_str("(unitless)");
        assert(r@ =~= seq!['(', 'u', 'n', 'i', 't', 'l', 'e', 's', 's', ')']);
        assert(r@ =~= unit_chars(d@));
        r
    } else if de.as_str().is_empty() {
        nu
    } else if nu.as_str().is_empty() {
        proof {
            reveal_strlit("1/");
        }
        let mut r = String::from_str("1/");
        assert(r@ =~= seq!['1', '/']);
        r.append(de.as_str());
        assert(r@ =~= unit_chars(d@));
        r
    } else {
        proof {
            reveal_strlit("/");
        }
        let mut r = nu;
        r.append("/");
        assert("/"@ =~= seq!['/']);
        r.append(de.as_str());
        assert(r@ =~= unit_chars(d@));
        r
    }
}

} // verus!
