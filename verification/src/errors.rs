//! Error types.
//!
//! Parsing a unit string can fail in six ways, each carried as a variant of
//! [`ParseError`] together with the offending token.  The arithmetic engine
//! adds dimension mismatches and domain violations, carried by [`DvError`].
//! Every variant renders a fixed human-readable message; callers that need
//! plain strings use `message`.

use vstd::prelude::*;

verus! {

/// A failure to parse a unit string.
#[derive(Debug, PartialEq, Eq)]
pub enum ParseError {
    /// More than one `/` in the unit string.
    MultipleSlashes,
    /// A term that is empty (or only whitespace).
    EmptyToken,
    /// A term that ends in `^` with no exponent after it; carries the term.
    MissingExponent(Vec<u8>),
    /// An exponent that is not a readable number (it overflows the exponent
    /// range); carries the term.
    InvalidExponent(Vec<u8>),
    /// An exponent with no unit symbol before it; carries the term.
    MissingSymbol(Vec<u8>),
    /// A symbol that the registry does not know; carries the symbol.
    UnknownUnit(Vec<u8>),
}

/// A failure of an engine operation.
#[derive(Debug, PartialEq, Eq)]
pub enum DvError {
    /// The unit string did not parse.
    Parse(ParseError),
    /// The two operands' base-dimension vectors differ.
    DimensionMismatch,
    /// The operation needs a unitless operand.
    NotUnitless,
    /// The operation needs a value strictly above zero.
    NonPositive,
    /// A square root of a value below zero.
    NegativeSqrt,
    /// A square root that would need exponents finer than half-integers.
    FractionalExponent,
}

/// All bytes below `0x80`: plain ASCII text.
pub open spec fn ascii_seq(b: Seq<u8>) -> bool {
    forall|i: int| 0 <= i < b.len() ==> b[i] < 0x80
}

/// The characters that an ASCII byte sequence spells.
pub open spec fn bytes_as_chars(b: Seq<u8>) -> Seq<char> {
    b.map_values(|x: u8| x as char)
}

/// Relies on `String::from_utf8_lossy`: bytes that are valid UTF-8 come back
/// unchanged, so ASCII bytes come back as exactly their characters.
#[verifier::external_body]
fn lossy_string(b: &[u8]) -> (r: String)
    ensures
        ascii_seq(b@) ==> r@ == bytes_as_chars(b@),
{
    String::from_utf8_lossy(b).into_owned()
}

impl ParseError {
    /// The human-readable message of this error.  For an ASCII token the
    /// message quotes it verbatim.
    pub fn message(&self) -> (r: String)
        ensures
            self matches ParseError::MultipleSlashes ==> r@ == "Unit string can only have one '/'"@,
            self matches ParseError::EmptyToken ==> r@ == "Empty unit token"@,
            forall|t: Vec<u8>|
                (self == ParseError::MissingExponent(t) && ascii_seq(t@)) ==> r@ == "Missing exponent after '^' in \""@
                    + bytes_as_chars(t@) + "\""@,
            forall|t: Vec<u8>|
                (self == ParseError::InvalidExponent(t) && ascii_seq(t@)) ==> r@ == "Unable to read numeric power from \""@
                    + bytes_as_chars(t@) + "\""@,
            forall|t: Vec<u8>|
                (self == ParseError::MissingSymbol(t) && ascii_seq(t@)) ==> r@ == "Missing unit symbol before exponent in \""@
                    + bytes_as_chars(t@) + "\""@,
            forall|t: Vec<u8>|
                (self == ParseError::UnknownUnit(t) && ascii_seq(t@)) ==> r@ == "Unknown unit: "@
                    + bytes_as_chars(t@),
    {
        match self {
            ParseError::MultipleSlashes => String::from_str("Unit string can only have one '/'"),
            ParseError::EmptyToken => String::from_str("Empty unit token"),
            ParseError::MissingExponent(t) => {
                let mut m = String::from_str("Missing exponent after '^' in \"");
                m.append(lossy_string(t.as_slice()).as_str());
                m.append("\"");
                m
            },
            ParseError::InvalidExponent(t) => {
                let mut m = String::from_str("Unable to read numeric power from \"");
                m.append(lossy_string(t.as_slice()).as_str());
                m.append("\"");
                m
            },
            ParseError::MissingSymbol(t) => {
                let mut m = String::from_str("Missing unit symbol before exponent in \"");
                m.append(lossy_string(t.as_slice()).as_str());
                m.append("\"");
                m
            },
            ParseError::UnknownUnit(t) => {
                let mut m = String::from_str("Unknown unit: ");
                m.append(lossy_string(t.as_slice()).as_str());
                m
            },
        }
    }
}

} // verus!
