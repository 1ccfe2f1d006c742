//! Dimensional analysis: quantities as an SI-base-scaled numeric value paired
//! with a vector of base-dimension exponents, derived from a unit string such
//! as `"BTU-in/hr-ft^2-F"`.

pub mod dims;
pub mod errors;
pub mod fp;
pub mod laws;
pub mod parse;
pub mod render;
pub mod units;
pub mod var;

pub use crate::errors::{DvError, ParseError};
pub use crate::var::DimensionalVariable;

use vstd::prelude::*;

verus! {

/// Version of the library.
pub fn version() -> (r: &'static str)
    ensures
        r@ == "0.1.0"@,
{
    "0.1.0"
}

} // verus!
