//! The unit expression parser.
//!
//! A unit string is an optional numerator, optionally followed by a single
//! `/` and a denominator.  Each side is a `-`-separated list of terms; a term
//! is a unit symbol with an optional integer exponent, written either bare
//! (`m3`), after a caret (`m^3`), or negative (`m^-3`, and inside a term also
//! `m-3`).  Parentheses and brackets are decorative and stripped first.  The
//! parser works on the string's bytes; every delimiter is ASCII, so byte
//! positions and character positions agree where it matters.

use vstd::prelude::*;
use vstd::string::StringSliceAdditionalSpecFns;
use crate::dims::{Dim, BASE_UNITS_SIZE};
use crate::errors::ParseError;
use crate::fp::{mul_bits, powi_bits, ONE_BITS};
use crate::units::{spec_lookup, lookup};

verus! {

/// ASCII whitespace, the characters that are trimmed around terms.
pub open spec fn is_space(b: u8) -> bool {
    b == 32 || b == 9 || b == 10 || b == 13 || b == 11 || b == 12
}

/// An ASCII decimal digit.
pub open spec fn is_digit(b: u8) -> bool {
    48 <= b && b <= 57
}

/// The decorative characters `(`, `)`, `[`, `]`.
pub open spec fn is_bracket(b: u8) -> bool {
    b == 40 || b == 41 || b == 91 || b == 93
}

/// Index of the first non-space byte at or after `i`; the length when all
/// remaining bytes are spaces.
pub open spec fn trim_lo(t: Seq<u8>, i: int) -> int
    decreases t.len() - i,
{
    if i < 0 || i >= t.len() {
        t.len() as int
    } else if is_space(t[i]) {
        trim_lo(t, i + 1)
    } else {
        i
    }
}

/// Index just past the last non-space byte before `j` (but not before `lo`).
pub open spec fn trim_hi(t: Seq<u8>, lo: int, j: int) -> int
    decreases j - lo,
{
    if j <= lo {
        lo
    } else if is_space(t[j - 1]) {
        trim_hi(t, lo, j - 1)
    } else {
        j
    }
}

/// The byte sequence with leading and trailing ASCII whitespace removed.
pub open spec fn spec_trim(t: Seq<u8>) -> Seq<u8> {
    let lo = trim_lo(t, 0);
    let hi = trim_hi(t, lo, t.len() as int);
    t.subrange(lo, hi)
}

/// Start of the run of trailing digits that ends at `e`; `e` itself when
/// `u[e-1]` is not a digit.
pub open spec fn digits_start(u: Seq<u8>, e: int) -> int
    decreases e,
{
    if e <= 0 {
        0
    } else if is_digit(u[e - 1]) {
        digits_start(u, e - 1)
    } else {
        e
    }
}

/// Value of the digit run `u[s..e)` read as a decimal number.
pub open spec fn digits_val(u: Seq<u8>, s: int, e: int) -> int
    decreases e - s,
{
    if e <= s {
        0
    } else {
        digits_val(u, s, e - 1) * 10 + (u[e - 1] - 48)
    }
}

/// Every byte of the trailing run found by `digits_start` is a digit.
proof fn lemma_digits_run(u: Seq<u8>, e: int)
    requires
        0 <= e <= u.len(),
    ensures
        0 <= digits_start(u, e) <= e,
        forall|k: int| digits_start(u, e) <= k < e ==> is_digit(#[trigger] u[k]),
    decreases e,
{
    if e > 0 && is_digit(u[e - 1]) {
        lemma_digits_run(u, e - 1);
    }
}

/// What reading a term yields: a symbol with its power, or one of the
/// term-level failures, each carrying the trimmed term it arose from.
pub enum TermShape {
    /// The term is empty after trimming.
    Empty,
    /// The term ends in a bare `^`.
    MissingExp(Seq<u8>),
    /// The exponent does not fit the exponent range.
    BadExp(Seq<u8>),
    /// There is an exponent but no symbol before it.
    NoSymbol(Seq<u8>),
    /// A symbol and its integer power.
    Term(Seq<u8>, int),
}

/// Reading one term: trim it; scan the trailing digits as the power, with an
/// optional sign after a caret or directly after the symbol; default the
/// power to one when there are no digits.
pub open spec fn spec_read_unit_power(t: Seq<u8>) -> TermShape {
    let u = spec_trim(t);
    if u.len() == 0 {
        TermShape::Empty
    } else {
        let dstart = digits_start(u, u.len() as int);
        if dstart == u.len() {
            if u[u.len() - 1] == 94 {
                TermShape::MissingExp(u)
            } else {
                TermShape::Term(u, 1)
            }
        } else {
            let neg = dstart > 0 && u[dstart - 1] == 45;
            let sstart = if neg {
                dstart - 1
            } else {
                dstart
            };
            let v = digits_val(u, dstart, u.len() as int);
            let p = if neg {
                -v
            } else {
                v
            };
            if p < -0x80000000 || p > 0x7fffffff {
                TermShape::BadExp(u)
            } else {
                let base_end = if sstart > 0 && u[sstart - 1] == 94 {
                    sstart - 1
                } else {
                    sstart
                };
                let base = spec_trim(u.subrange(0, base_end));
                if base.len() == 0 {
                    TermShape::NoSymbol(u)
                } else {
                    TermShape::Term(base, p)
                }
            }
        }
    }
}

/// Parses a term like `m3`, `m^3`, `m^-2` or `m-2` into its symbol and
/// power; the power defaults to one when no trailing number is present.
pub fn read_unit_power(unit: &[u8]) -> (r: Result<(Vec<u8>, i32), ParseError>)
    ensures
        match spec_read_unit_power(unit@) {
            TermShape::Empty => r matches Err(ParseError::EmptyToken),
            TermShape::MissingExp(u) => r matches Err(ParseError::MissingExponent(t)) && t@ == u,
            TermShape::BadExp(u) => r matches Err(ParseError::InvalidExponent(t)) && t@ == u,
            TermShape::NoSymbol(u) => r matches Err(ParseError::MissingSymbol(t)) && t@ == u,
            TermShape::Term(sym, p) => r matches Ok(pair) && pair.0@ == sym && pair.1 as int == p,
        },
{
    let n = unit.len();
    // Trim: find the first and last non-space bytes.
    let mut lo: usize = 0;
    while lo < n && is_space_exec(unit[lo])
        invariant
            lo <= n,
            n == unit@.len(),
            trim_lo(unit@, 0) == trim_lo(unit@, lo as int),
        decreases n - lo,
    {
        lo = lo + 1;
    }
    assert(trim_lo(unit@, 0) == lo as int);
    let mut hi: usize = n;
    while hi > lo && is_space_exec(unit[hi - 1])
        invariant
            lo <= hi <= n,
            n == unit@.len(),
            trim_hi(unit@, lo as int, n as int) == trim_hi(unit@, lo as int, hi as int),
        decreases hi,
    {
        hi = hi - 1;
    }
    assert(trim_hi(unit@, lo as int, n as int) == hi as int);
    let u = &unit[lo..hi];
    assert(u@ == spec_trim(unit@));
    let ulen = u.len();
    if ulen == 0 {
        return Err(ParseError::EmptyToken);
    }
    // Scan the trailing digit run.
    let mut dstart: usize = ulen;
    while dstart > 0 && is_digit_exec(u[dstart - 1])
        invariant
            dstart <= ulen,
            ulen == u@.len(),
            digits_start(u@, ulen as int) == digits_start(u@, dstart as int),
        decreases dstart,
    {
        dstart = dstart - 1;
    }
    assert(digits_start(u@, ulen as int) == dstart as int);
    proof {
        lemma_digits_run(u@, ulen as int);
    }
    if dstart == ulen {
        // No digits: a bare trailing caret is an error, otherwise the whole
        // trimmed term is the symbol with power one.
        if u[ulen - 1] == 94 {
            return Err(ParseError::MissingExponent(copy_bytes(u, 0, ulen)));
        }
        return Ok((copy_bytes(u, 0, ulen), 1));
    }
    // Read the digits; values beyond the exponent range only need to be
    // recognized, not represented.
    let mut v: u64 = 0;
    let mut too_big = false;
    let mut i: usize = dstart;
    while i < ulen
        invariant
            dstart <= i <= ulen,
            ulen == u@.len(),
            forall|k: int| dstart <= k < ulen ==> is_digit(#[trigger] u@[k]),
            !too_big ==> v as int == digits_val(u@, dstart as int, i as int) && v
                <= 0x80000000,
            too_big ==> digits_val(u@, dstart as int, i as int) > 0x80000000,
        decreases ulen - i,
    {
        let d = u[i];
        assert(is_digit(u@[i as int]));
        if too_big {
            proof {
                assert(digits_val(u@, dstart as int, i as int + 1) == digits_val(
                    u@,
                    dstart as int,
                    i as int,
                ) * 10 + (u@[i as int] - 48));
            }
        } else {
            let v2 = v * 10 + ((d - 48) as u64);
            proof {
                assert(digits_val(u@, dstart as int, i as int + 1) == digits_val(
                    u@,
                    dstart as int,
                    i as int,
                ) * 10 + (u@[i as int] - 48));
            }
            if v2 > 0x80000000 {
                too_big = true;
            } else {
                v = v2;
            }
        }
        i = i + 1;
    }
    let neg = dstart > 0 && u[dstart - 1] == 45;
    let sstart = if neg {
        dstart - 1
    } else {
        dstart
    };
    let in_range = if too_big {
        false
    } else if neg {
        v <= 0x80000000
    } else {
        v <= 0x7fffffff
    };
    if !in_range {
        return Err(ParseError::InvalidExponent(copy_bytes(u, 0, ulen)));
    }
    let p: i32 = if neg {
        (-(v as i64)) as i32
    } else {
        v as i32
    };
    let base_end = if sstart > 0 && u[sstart - 1] == 94 {
        sstart - 1
    } else {
        sstart
    };
    // The base symbol is everything before the exponent, trimmed again.
    let mut bhi: usize = base_end;
    while bhi > 0 && is_space_exec(u[bhi - 1])
        invariant
            bhi <= base_end,
            base_end <= ulen,
            ulen == u@.len(),
            trim_hi(u@.subrange(0, base_end as int), 0, base_end as int) == trim_hi(
                u@.subrange(0, base_end as int),
                0,
                bhi as int,
            ),
        decreases bhi,
    {
        bhi = bhi - 1;
    }
    proof {
        let bseq = u@.subrange(0, base_end as int);
        assert(trim_hi(bseq, 0, base_end as int) == bhi as int);
        if base_end > 0 {
            assert(!is_space(u@[0]));
            assert(trim_lo(bseq, 0) == 0);
            assert(spec_trim(bseq) =~= u@.subrange(0, bhi as int));
        } else {
            assert(spec_trim(bseq) =~= u@.subrange(0, 0));
        }
    }
    if bhi == 0 {
        return Err(ParseError::MissingSymbol(copy_bytes(u, 0, ulen)));
    }
    Ok((copy_bytes(u, 0, bhi), p))
}

/// ASCII whitespace test on a byte.
fn is_space_exec(b: u8) -> (r: bool)
    ensures
        r == is_space(b),
{
    b == 32 || b == 9 || b == 10 || b == 13 || b == 11 || b == 12
}

/// ASCII digit test on a byte.
fn is_digit_exec(b: u8) -> (r: bool)
    ensures
        r == is_digit(b),
{
    48 <= b && b <= 57
}

/// Copies `s[from..to)` into a fresh vector.
fn copy_bytes(s: &[u8], from: usize, to: usize) -> (r: Vec<u8>)
    requires
        from <= to <= s@.len(),
    ensures
        r@ == s@.subrange(from as int, to as int),
{
    let mut r: Vec<u8> = Vec::new();
    let mut i: usize = from;
    while i < to
        invariant
            from <= i <= to,
            to <= s@.len(),
            r@ == s@.subrange(from as int, i as int),
        decreases to - i,
    {
        let b = s[i];
        r.push(b);
        proof {
            assert(s@.subrange(from as int, i as int + 1) =~= s@.subrange(
                from as int,
                i as int,
            ).push(s@[i as int]));
        }
        i = i + 1;
    }
    r
}

/// The input with every `(`, `)`, `[`, `]` removed.
pub open spec fn strip_brackets(s: Seq<u8>) -> Seq<u8>
    decreases s.len(),
{
    if s.len() == 0 {
        Seq::empty()
    } else {
        let rest = strip_brackets(s.drop_last());
        if is_bracket(s.last()) {
            rest
        } else {
            rest.push(s.last())
        }
    }
}

/// How many `/` the cleaned string holds.
pub open spec fn slash_count(c: Seq<u8>) -> int
    decreases c.len(),
{
    if c.len() == 0 {
        0
    } else {
        slash_count(c.drop_last()) + if c.last() == 47 {
            1int
        } else {
            0int
        }
    }
}

/// Index of the first `/` at or after `i`; the length when there is none.
pub open spec fn first_slash(c: Seq<u8>, i: int) -> int
    decreases c.len() - i,
{
    if i < 0 || i >= c.len() {
        c.len() as int
    } else if c[i] == 47 {
        i
    } else {
        first_slash(c, i + 1)
    }
}

/// A term separator: a `-` that is not an exponent sign, that is, not
/// immediately preceded by `^`.
pub open spec fn is_sep(c: Seq<u8>, p: int) -> bool {
    c[p] == 45 && (p == 0 || c[p - 1] != 94)
}

/// Index of the first term separator at or after `i`; the length when there
/// is none.
pub open spec fn next_sep(c: Seq<u8>, i: int) -> int
    decreases c.len() - i,
{
    if i < 0 || i >= c.len() {
        c.len() as int
    } else if is_sep(c, i) {
        i
    } else {
        next_sep(c, i + 1)
    }
}

/// The segments of a side, split at every separator; empty segments are
/// kept, and each becomes an empty term.  (The `j < i` guard never fires; it
/// only keeps the recursion visibly bounded.)
pub open spec fn split_terms_from(c: Seq<u8>, i: int) -> Seq<Seq<u8>>
    decreases c.len() - i,
{
    let j = next_sep(c, i);
    if j >= c.len() || j < i {
        seq![c.subrange(i, c.len() as int)]
    } else {
        seq![c.subrange(i, j)] + split_terms_from(c, j + 1)
    }
}

/// The spec-level shape of a parse failure, mirroring `ParseError` with the
/// offending bytes as sequences.
pub enum ErrShape {
    MultipleSlashes,
    Empty,
    MissingExp(Seq<u8>),
    BadExp(Seq<u8>),
    NoSymbol(Seq<u8>),
    Unknown(Seq<u8>),
}

/// Whether the executable error carries exactly the spec-level shape.
pub open spec fn err_matches(e: ParseError, s: ErrShape) -> bool {
    match s {
        ErrShape::MultipleSlashes => e matches ParseError::MultipleSlashes,
        ErrShape::Empty => e matches ParseError::EmptyToken,
        ErrShape::MissingExp(u) => e matches ParseError::MissingExponent(t) && t@ == u,
        ErrShape::BadExp(u) => e matches ParseError::InvalidExponent(t) && t@ == u,
        ErrShape::NoSymbol(u) => e matches ParseError::MissingSymbol(t) && t@ == u,
        ErrShape::Unknown(u) => e matches ParseError::UnknownUnit(t) && t@ == u,
    }
}

/// One term's effect on the exponent vector: each slot moves by the entry's
/// exponent times the term's power times the side multiplier.
pub open spec fn dim_step(dim: Seq<int>, entry_dim: Seq<int>, p: int, mult: int) -> Seq<int> {
    Seq::new(BASE_UNITS_SIZE as nat, |i: int| dim[i] + entry_dim[i] * p * mult)
}

/// Folds a side's terms left to right into the running exponent vector and
/// conversion factor.  Each term adds `entry * power * mult` to the vector
/// (`mult` is `1` in the numerator and `-1` in the denominator) and
/// multiplies the factor by the entry's factor raised to `power * mult`.
/// The first invalid term decides the error.
pub open spec fn fold_terms(terms: Seq<Seq<u8>>, mult: int, dim: Seq<int>, factor: u64) -> Result<
    (Seq<int>, u64),
    ErrShape,
>
    decreases terms.len(),
{
    if terms.len() == 0 {
        Ok((dim, factor))
    } else {
        match spec_read_unit_power(terms[0]) {
            TermShape::Empty => Err(ErrShape::Empty),
            TermShape::MissingExp(u) => Err(ErrShape::MissingExp(u)),
            TermShape::BadExp(u) => Err(ErrShape::BadExp(u)),
            TermShape::NoSymbol(u) => Err(ErrShape::NoSymbol(u)),
            TermShape::Term(sym, p) => match spec_lookup(sym) {
                None => Err(ErrShape::Unknown(sym)),
                Some(entry) => fold_terms(
                    terms.drop_first(),
                    mult,
                    dim_step(dim, entry.base_unit@, p, mult),
                    mul_bits(factor, powi_bits(entry.conversion_factor, p * mult)),
                ),
            },
        }
    }
}

/// The all-zero exponent vector.
pub open spec fn zero_dim_seq() -> Seq<int> {
    Seq::new(BASE_UNITS_SIZE as nat, |i: int| 0int)
}

/// The whole grammar: strip brackets, allow at most one `/`, fold the
/// numerator with multiplier `1` and the denominator with `-1`, starting
/// from the zero vector and factor one.  An empty side contributes nothing.
pub open spec fn spec_parse(s: Seq<u8>) -> Result<(Seq<int>, u64), ErrShape> {
    let c = strip_brackets(s);
    if slash_count(c) > 1 {
        Err(ErrShape::MultipleSlashes)
    } else {
        let fs = first_slash(c, 0);
        let num = c.subrange(0, fs);
        let num_terms = if num.len() == 0 {
            Seq::<Seq<u8>>::empty()
        } else {
            split_terms_from(num, 0)
        };
        match fold_terms(num_terms, 1, zero_dim_seq(), ONE_BITS) {
            Err(e) => Err(e),
            Ok((d1, f1)) => {
                if fs >= c.len() {
                    Ok((d1, f1))
                } else {
                    let den = c.subrange(fs + 1, c.len() as int);
                    let den_terms = if den.len() == 0 {
                        Seq::<Seq<u8>>::empty()
                    } else {
                        split_terms_from(den, 0)
                    };
                    fold_terms(den_terms, -1, d1, f1)
                }
            },
        }
    }
}

/// Every registry entry's exponent halves lie between minus six and six.
proof fn lemma_lookup_bounds(sym: Seq<u8>)
    ensures
        match spec_lookup(sym) {
            Some(u) => forall|i: int|
                0 <= i < BASE_UNITS_SIZE ==> -6 <= #[trigger] u.base_unit@[i] <= 6,
            None => true,
        },
{
    reveal(spec_lookup);
}

/// Separator test at one position of a side.
fn is_sep_exec(c: &[u8], p: usize) -> (r: bool)
    requires
        p < c@.len(),
    ensures
        r == is_sep(c@, p as int),
{
    c[p] == 45 && (p == 0 || c[p - 1] != 94)
}

/// Folds one side of the expression (numerator when `positive`, denominator
/// otherwise) into the running exponent vector and conversion factor, term
/// by term, as `fold_terms` prescribes.  The ghost `bound` carries the entry
/// bound on the vector's slots; each term moves a slot by at most
/// `6 * 2^31 < 2^35`, so the result stays within `bound + 2^35 * (len + 1)`.
#[verifier::rlimit(100)]
fn parse_side(side: &[u8], positive: bool, dim0: Dim, factor0: u64, bound: Ghost<int>) -> (r:
    Result<(Dim, u64), ParseError>)
    requires
        bound@ >= 0,
        forall|i: int| 0 <= i < BASE_UNITS_SIZE ==> -bound@ <= #[trigger] dim0@[i] <= bound@,
        bound@ + 0x800000000 * (side@.len() + 1) <= 0x40000000000000000000000000000000,
    ensures
        ({
            let mult: int = if positive {
                1
            } else {
                -1
            };
            let terms = if side@.len() == 0 {
                Seq::<Seq<u8>>::empty()
            } else {
                split_terms_from(side@, 0)
            };
            match fold_terms(terms, mult, dim0@, factor0) {
                Ok((d, f)) => r matches Ok(p) && p.0@ == d && p.1 == f,
                Err(es) => r matches Err(e) && err_matches(e, es),
            }
        }),
        r matches Ok(p) ==> forall|i: int|
            0 <= i < BASE_UNITS_SIZE ==> -(bound@ + 0x800000000 * (side@.len() + 1))
                <= #[trigger] p.0@[i] <= bound@ + 0x800000000 * (side@.len() + 1),
{
    let ghost mult: int = if positive {
        1
    } else {
        -1
    };
    let len = side.len();
    if len == 0 {
        return Ok((dim0, factor0));
    }
    let ghost c = side@;
    let ghost total = fold_terms(split_terms_from(c, 0), mult, dim0@, factor0);
    let mut seg: usize = 0;
    let mut dimc = dim0;
    let mut fc = factor0;
    let ghost mut terms_done: int = 0;
    loop
        invariant
            len == c.len(),
            side@ == c,
            1 <= len,
            seg <= len,
            0 <= terms_done <= seg,
            bound@ >= 0,
            bound@ + 0x800000000 * (len + 1) <= 0x40000000000000000000000000000000,
            forall|i: int|
                0 <= i < BASE_UNITS_SIZE ==> -(bound@ + 0x800000000 * terms_done)
                    <= #[trigger] dimc@[i] <= bound@ + 0x800000000 * terms_done,
            fold_terms(split_terms_from(c, seg as int), mult, dimc@, fc) == total,
            total == fold_terms(split_terms_from(c, 0), mult, dim0@, factor0),
            positive ==> mult == 1,
            !positive ==> mult == -1,
        decreases len - seg,
    {
        // Find the end of the current segment.
        let mut p: usize = seg;
        while p < len && !is_sep_exec(side, p)
            invariant
                seg <= p <= len,
                len == side@.len(),
                side@ == c,
                next_sep(c, seg as int) == next_sep(c, p as int),
            decreases len - p,
        {
            p = p + 1;
        }
        assert(next_sep(c, seg as int) == p as int);
        proof {
            // Unfold the term list one segment.
            if p < len {
                assert(split_terms_from(c, seg as int) =~= seq![
                    c.subrange(seg as int, p as int),
                ] + split_terms_from(c, p as int + 1));
            } else {
                assert(split_terms_from(c, seg as int) =~= seq![
                    c.subrange(seg as int, len as int),
                ]);
            }
        }
        let ghost terms_here = split_terms_from(c, seg as int);
        let ghost term_seq = c.subrange(seg as int, p as int);
        proof {
            assert(terms_here[0] == term_seq);
            assert(terms_here.len() >= 1);
            if p < len {
                assert(terms_here.drop_first() =~= split_terms_from(c, p as int + 1));
            } else {
                assert(terms_here.drop_first() =~= Seq::<Seq<u8>>::empty());
            }
        }
        let term = &side[seg..p];
        match read_unit_power(term) {
            Err(e) => {
                return Err(e);
            },
            Ok(sp) => {
                let sym = sp.0;
                let pw = sp.1;
                match lookup(sym.as_slice()) {
                    None => {
                        return Err(ParseError::UnknownUnit(sym));
                    },
                    Some(entry) => {
                        proof {
                            lemma_lookup_bounds(sym@);
                        }
                        let pm: i64 = if positive {
                            pw as i64
                        } else {
                            -(pw as i64)
                        };
                        let ghost dim_next = dim_step(dimc@, entry.base_unit@, pw as int, mult);
                        let ghost dimc_in = dimc@;
                        let mut out: [i128; BASE_UNITS_SIZE] = [0, 0, 0, 0, 0, 0, 0];
                        let mut i: usize = 0;
                        while i < BASE_UNITS_SIZE
                            invariant
                                i <= BASE_UNITS_SIZE,
                                dimc@ == dimc_in,
                                forall|k: int|
                                    0 <= k < BASE_UNITS_SIZE ==> -6 <= #[trigger] entry.base_unit@[k]
                                        <= 6,
                                forall|k: int|
                                    0 <= k < BASE_UNITS_SIZE ==> -(bound@ + 0x800000000
                                        * terms_done) <= #[trigger] dimc@[k] <= bound@
                                        + 0x800000000 * terms_done,
                                bound@ >= 0,
                                terms_done <= len,
                                bound@ + 0x800000000 * (len + 1)
                                    <= 0x40000000000000000000000000000000,
                                -0x80000000 <= pm <= 0x80000000,
                                pm == pw as int * mult,
                                forall|j: int|
                                    0 <= j < i ==> #[trigger] (out[j] as int) == dimc@[j]
                                        + entry.base_unit@[j] * pm,
                            decreases BASE_UNITS_SIZE - i,
                        {
                            proof {
                                assert(-6 <= entry.base_unit@[i as int] <= 6);
                                assert(-(bound@ + 0x800000000 * terms_done) <= dimc@[i as int]
                                    <= bound@ + 0x800000000 * terms_done);
                                assert(-0x800000000 <= entry.base_unit@[i as int] * pm
                                    <= 0x800000000) by (nonlinear_arith)
                                    requires
                                        -6 <= entry.base_unit@[i as int] <= 6,
                                        -0x80000000 <= pm <= 0x80000000,
                                ;
                            }
                            out[i] = dimc.halves[i] + entry.base_unit.halves[i] * (pm as i128);
                            i = i + 1;
                        }
                        let dim2 = Dim { halves: out };
                        proof {
                            assert forall|k: int| 0 <= k < BASE_UNITS_SIZE implies
                                #[trigger] dim2@[k] == dim_next[k] by {
                                assert(out[k] as int == dimc@[k] + entry.base_unit@[k] * pm);
                                assert(entry.base_unit@[k] * pm == entry.base_unit@[k] * (
                                pw as int) * mult) by (nonlinear_arith)
                                    requires
                                        pm == pw as int * mult,
                                ;
                            }
                            assert(dim2@ =~= dim_next);
                            assert forall|k: int| 0 <= k < BASE_UNITS_SIZE implies -(bound@
                                + 0x800000000 * (terms_done + 1)) <= #[trigger] dim2@[k] <= bound@
                                + 0x800000000 * (terms_done + 1) by {
                                assert(out[k] as int == dimc@[k] + entry.base_unit@[k] * pm);
                                assert(-0x800000000 <= entry.base_unit@[k] * pm <= 0x800000000)
                                    by (nonlinear_arith)
                                    requires
                                        -6 <= entry.base_unit@[k] <= 6,
                                        -0x80000000 <= pm <= 0x80000000,
                                ;
                            }
                        }
                        let f2 = crate::fp::fp_mul(fc, crate::fp::fp_powi(entry.conversion_factor, pm));
                        proof {
                            assert(fold_terms(terms_here, mult, dimc@, fc) == fold_terms(
                                terms_here.drop_first(),
                                mult,
                                dim_next,
                                mul_bits(fc, powi_bits(entry.conversion_factor, pw as int * mult)),
                            ));
                        }
                        dimc = dim2;
                        fc = f2;
                        proof {
                            terms_done = terms_done + 1;
                        }
                        if p == len {
                            proof {
                                assert(terms_here.drop_first() =~= Seq::<Seq<u8>>::empty());
                                assert(total == fold_terms(Seq::<Seq<u8>>::empty(), mult, dimc@, fc));
                                assert(total == Ok::<(Seq<int>, u64), ErrShape>((dimc@, fc)));
                            }
                            return Ok((dimc, fc));
                        }
                        seg = p + 1;
                    },
                }
            },
        }
    }
}

/// Bound on every exponent slot that a parse can produce, in halves: far
/// below what the slot type can hold.
pub open spec fn parse_bound() -> int {
    0x20000000000000000000000000
}

/// Converts a unit string like `m/s^2` or `kg-m/s^2` into its base-dimension
/// exponent vector and conversion factor, as `spec_parse` prescribes.
pub fn unit_str_to_base_unit(units_str: &str) -> (r: Result<(Dim, u64), ParseError>)
    ensures
        match spec_parse(units_str.spec_bytes()) {
            Ok((d, f)) => r matches Ok(p) && p.0@ == d && p.1 == f,
            Err(es) => r matches Err(e) && err_matches(e, es),
        },
        r matches Ok(p) ==> forall|i: int|
            0 <= i < BASE_UNITS_SIZE ==> -parse_bound() <= #[trigger] p.0@[i] <= parse_bound(),
{
    let bytes = units_str.as_bytes();
    // Strip the decorative brackets.
    let mut cleaned: Vec<u8> = Vec::new();
    let mut i: usize = 0;
    while i < bytes.len()
        invariant
            i <= bytes@.len(),
            cleaned@ == strip_brackets(bytes@.subrange(0, i as int)),
        decreases bytes@.len() - i,
    {
        let b = bytes[i];
        proof {
            assert(bytes@.subrange(0, i as int + 1).drop_last() =~= bytes@.subrange(0, i as int));
            assert(bytes@.subrange(0, i as int + 1).last() == bytes@[i as int]);
        }
        if !(b == 40 || b == 41 || b == 91 || b == 93) {
            cleaned.push(b);
        }
        i = i + 1;
    }
    proof {
        assert(bytes@.subrange(0, bytes@.len() as int) =~= bytes@);
    }
    let ghost c = cleaned@;
    // One pass for the number of slashes and the first one's position.
    let n = cleaned.len();
    let mut count: usize = 0;
    let mut fs: usize = n;
    let mut j: usize = 0;
    while j < n
        invariant
            j <= n,
            count <= j,
            n == c.len(),
            cleaned@ == c,
            count == slash_count(c.subrange(0, j as int)),
            count > 0 ==> fs < j && first_slash(c, 0) == fs as int,
            count == 0 ==> fs == n && first_slash(c, 0) == first_slash(c, j as int),
        decreases n - j,
    {
        proof {
            assert(c.subrange(0, j as int + 1).drop_last() =~= c.subrange(0, j as int));
            assert(c.subrange(0, j as int + 1).last() == c[j as int]);
        }
        if cleaned[j] == 47 {
            if count == 0 {
                fs = j;
            }
            count = count + 1;
        }
        j = j + 1;
    }
    proof {
        assert(c.subrange(0, n as int) =~= c);
    }
    if count > 1 {
        return Err(ParseError::MultipleSlashes);
    }
    // Numerator, with multiplier one.
    let csl = cleaned.as_slice();
    let num = &csl[0..fs];
    assert(num@ =~= c.subrange(0, fs as int));
    let zero = Dim::zero();
    assert(zero@ =~= zero_dim_seq());
    let first = parse_side(num, true, zero, ONE_BITS, Ghost(0));
    let (d1, f1) = match first {
        Err(e) => {
            return Err(e);
        },
        Ok(p) => p,
    };
    proof {
        assert(num@.len() == fs as int);
        let terms = if num@.len() == 0 {
            Seq::<Seq<u8>>::empty()
        } else {
            split_terms_from(num@, 0)
        };
        assert forall|i: int| 0 <= i < BASE_UNITS_SIZE implies -0x10000000000000000000000000
            <= #[trigger] d1@[i] <= 0x10000000000000000000000000 by {
            assert(-(0 + 0x800000000 * (num@.len() + 1)) <= d1@[i] <= 0 + 0x800000000 * (
            num@.len() + 1));
        }
    }
    if fs == n {
        assert(first_slash(c, 0) == c.len() as int);
        return Ok((d1, f1));
    }
    // Denominator, with multiplier minus one.
    let den = &csl[fs + 1..n];
    assert(den@ =~= c.subrange(fs as int + 1, c.len() as int));
    assert(num@.len() + 1 <= n + 1);
    let second = parse_side(den, false, d1, f1, Ghost(0x10000000000000000000000000int));
    match second {
        Err(e) => Err(e),
        Ok(p) => Ok(p),
    }
}

} // verus!
