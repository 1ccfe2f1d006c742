//! The unit registry: an immutable mapping from unit symbol to its SI
//! conversion factor and base-dimension exponent vector.
//!
//! Lookup is case-sensitive and exact; the table is fixed data.  Conversion
//! factors are stored as IEEE-754 binary64 bit patterns (see `fp`): each is
//! the bit pattern of the factor that converts one of the unit into SI base
//! units (for example, one mile is 1609.344 meters).  The exponent vectors
//! are stored in halves, as `Dim` prescribes, so a plain length unit reads
//! `[2, 0, 0, 0, 0, 0, 0]`.

use vstd::prelude::*;
use vstd::string::StringSliceAdditionalSpecFns;
use crate::dims::Dim;
pub use crate::dims::BASE_UNITS_SIZE;

verus! {

/// A physical unit: its conversion factor to SI base units (as binary64
/// bits) and its base-dimension exponent vector.
pub struct Unit {
    pub conversion_factor: u64,
    pub base_unit: Dim,
}

/// Byte-wise equality of two slices.
pub fn bytes_eq(a: &[u8], b: &[u8]) -> (r: bool)
    ensures
        r == (a@ == b@),
{
    if a.len() != b.len() {
        assert(a@ !~= b@);
        return false;
    }
    let mut i: usize = 0;
    while i < a.len()
        invariant
            i <= a@.len(),
            a@.len() == b@.len(),
            forall|j: int| 0 <= j < i ==> a@[j] == b@[j],
        decreases a@.len() - i,
    {
        if a[i] != b[i] {
            assert(a@[i as int] != b@[i as int]);
            assert(a@ !~= b@);
            return false;
        }
        i = i + 1;
    }
    assert(a@ =~= b@);
    true
}

/// The registry as a mapping from the symbol's bytes to its entry.  Opaque:
/// reasoning about a particular symbol reveals it.
#[verifier::opaque]
pub open spec fn spec_lookup(sym: Seq<u8>) -> Option<Unit> {
    // Length
    if sym == "m".spec_bytes() {  // meter: 1
        Some(Unit { conversion_factor: 0x3ff0000000000000, base_unit: Dim { halves: [2i128, 0i128, 0i128, 0i128, 0i128, 0i128, 0i128] } })
    } else if sym == "cm".spec_bytes() {  // centimeter: 1e-2
        Some(Unit { conversion_factor: 0x3f847ae147ae147b, base_unit: Dim { halves: [2i128, 0i128, 0i128, 0i128, 0i128, 0i128, 0i128] } })
    } else if sym == "mm".spec_bytes() {  // millimeter: 1e-3
        Some(Unit { conversion_factor: 0x3f50624dd2f1a9fc, base_unit: Dim { halves: [2i128, 0i128, 0i128, 0i128, 0i128, 0i128, 0i128] } })
    } else if sym == "um".spec_bytes() {  // micrometer: 1e-6
        Some(Unit { conversion_factor: 0x3eb0c6f7a0b5ed8d, base_unit: Dim { halves: [2i128, 0i128, 0i128, 0i128, 0i128, 0i128, 0i128] } })
    } else if sym == "nm".spec_bytes() {  // nanometer: 1e-9
        Some(Unit { conversion_factor: 0x3e112e0be826d695, base_unit: Dim { halves: [2i128, 0i128, 0i128, 0i128, 0i128, 0i128, 0i128] } })
    } else if sym == "km".spec_bytes() {  // kilometer: 1e3
        Some(Unit { conversion_factor: 0x408f400000000000, base_unit: Dim { halves: [2i128, 0i128, 0i128, 0i128, 0i128, 0i128, 0i128] } })
    } else if sym == "mi".spec_bytes() {  // mile: 1609.344
        Some(Unit { conversion_factor: 0x409925604189374c, base_unit: Dim { halves: [2i128, 0i128, 0i128, 0i128, 0i128, 0i128, 0i128] } })
    } else if sym == "yd".spec_bytes() {  // yard: 0.9144
        Some(Unit { conversion_factor: 0x3fed42c3c9eecbfb, base_unit: Dim { halves: [2i128, 0i128, 0i128, 0i128, 0i128, 0i128, 0i128] } })
    } else if sym == "ft".spec_bytes() {  // foot: 0.3048
        Some(Unit { conversion_factor: 0x3fd381d7dbf487fd, base_unit: Dim { halves: [2i128, 0i128, 0i128, 0i128, 0i128, 0i128, 0i128] } })
    } else if sym == "in".spec_bytes() {  // inch: 2.54e-2
        Some(Unit { conversion_factor: 0x3f9a027525460aa6, base_unit: Dim { halves: [2i128, 0i128, 0i128, 0i128, 0i128, 0i128, 0i128] } })
    } else if sym == "ly".spec_bytes() {  // light year: 9.4607e15
        Some(Unit { conversion_factor: 0x4340ce3a6f69cc00, base_unit: Dim { halves: [2i128, 0i128, 0i128, 0i128, 0i128, 0i128, 0i128] } })
    } else if sym == "pc".spec_bytes() {  // parsec: 3.0857e16
        Some(Unit { conversion_factor: 0x435b6811caf56400, base_unit: Dim { halves: [2i128, 0i128, 0i128, 0i128, 0i128, 0i128, 0i128] } })
    // Area
    } else if sym == "ha".spec_bytes() {  // hectare: 1e4
        Some(Unit { conversion_factor: 0x40c3880000000000, base_unit: Dim { halves: [4i128, 0i128, 0i128, 0i128, 0i128, 0i128, 0i128] } })
    } else if sym == "ac".spec_bytes() {  // acre: 4046.8564224
        Some(Unit { conversion_factor: 0x40af9db67cff2f20, base_unit: Dim { halves: [4i128, 0i128, 0i128, 0i128, 0i128, 0i128, 0i128] } })
    // Volume
    } else if sym == "l".spec_bytes() {  // liter: 1e-3
        Some(Unit { conversion_factor: 0x3f50624dd2f1a9fc, base_unit: Dim { halves: [6i128, 0i128, 0i128, 0i128, 0i128, 0i128, 0i128] } })
    } else if sym == "ml".spec_bytes() {  // milliliter: 1e-6
        Some(Unit { conversion_factor: 0x3eb0c6f7a0b5ed8d, base_unit: Dim { halves: [6i128, 0i128, 0i128, 0i128, 0i128, 0i128, 0i128] } })
    } else if sym == "gal".spec_bytes() {  // gallon: 3.785411784
        Some(Unit { conversion_factor: 0x400e4885f9316256, base_unit: Dim { halves: [6i128, 0i128, 0i128, 0i128, 0i128, 0i128, 0i128] } })
    } else if sym == "qt".spec_bytes() {  // quart: 9.4635284e-1
        Some(Unit { conversion_factor: 0x3fee4885c048dae5, base_unit: Dim { halves: [6i128, 0i128, 0i128, 0i128, 0i128, 0i128, 0i128] } })
    } else if sym == "pt".spec_bytes() {  // pint: 4.7317642e-1
        Some(Unit { conversion_factor: 0x3fde4885c048dae5, base_unit: Dim { halves: [6i128, 0i128, 0i128, 0i128, 0i128, 0i128, 0i128] } })
    } else if sym == "cup".spec_bytes() {  // cup: 2.3658821e-1
        Some(Unit { conversion_factor: 0x3fce4885c048dae5, base_unit: Dim { halves: [6i128, 0i128, 0i128, 0i128, 0i128, 0i128, 0i128] } })
    // Velocity
    } else if sym == "kn".spec_bytes() {  // knot: 1852/3600
        Some(Unit { conversion_factor: 0x3fe07654320fedcc, base_unit: Dim { halves: [2i128, 0i128, -2i128, 0i128, 0i128, 0i128, 0i128] } })
    // Force
    } else if sym == "N".spec_bytes() {  // newton: 1
        Some(Unit { conversion_factor: 0x3ff0000000000000, base_unit: Dim { halves: [2i128, 2i128, -4i128, 0i128, 0i128, 0i128, 0i128] } })
    } else if sym == "kN".spec_bytes() {  // kilonewton: 1e3
        Some(Unit { conversion_factor: 0x408f400000000000, base_unit: Dim { halves: [2i128, 2i128, -4i128, 0i128, 0i128, 0i128, 0i128] } })
    } else if sym == "lbf".spec_bytes() {  // pound-force: 4.4482216152605
        Some(Unit { conversion_factor: 0x4011cafa9b6b9dd7, base_unit: Dim { halves: [2i128, 2i128, -4i128, 0i128, 0i128, 0i128, 0i128] } })
    // Mass
    } else if sym == "kg".spec_bytes() {  // kilogram: 1
        Some(Unit { conversion_factor: 0x3ff0000000000000, base_unit: Dim { halves: [0i128, 2i128, 0i128, 0i128, 0i128, 0i128, 0i128] } })
    } else if sym == "g".spec_bytes() {  // gram: 1e-3
        Some(Unit { conversion_factor: 0x3f50624dd2f1a9fc, base_unit: Dim { halves: [0i128, 2i128, 0i128, 0i128, 0i128, 0i128, 0i128] } })
    } else if sym == "mg".spec_bytes() {  // milligram: 1e-6
        Some(Unit { conversion_factor: 0x3eb0c6f7a0b5ed8d, base_unit: Dim { halves: [0i128, 2i128, 0i128, 0i128, 0i128, 0i128, 0i128] } })
    } else if sym == "t".spec_bytes() {  // metric ton: 1e3
        Some(Unit { conversion_factor: 0x408f400000000000, base_unit: Dim { halves: [0i128, 2i128, 0i128, 0i128, 0i128, 0i128, 0i128] } })
    } else if sym == "lb".spec_bytes() {  // pound: 0.45359237
        Some(Unit { conversion_factor: 0x3fdd07a84ab75e51, base_unit: Dim { halves: [0i128, 2i128, 0i128, 0i128, 0i128, 0i128, 0i128] } })
    } else if sym == "oz".spec_bytes() {  // ounce: 0.028349523125
        Some(Unit { conversion_factor: 0x3f9d07a84ab75e51, base_unit: Dim { halves: [0i128, 2i128, 0i128, 0i128, 0i128, 0i128, 0i128] } })
    // Time
    } else if sym == "ns".spec_bytes() {  // nanosecond: 1e-9
        Some(Unit { conversion_factor: 0x3e112e0be826d695, base_unit: Dim { halves: [0i128, 0i128, 2i128, 0i128, 0i128, 0i128, 0i128] } })
    } else if sym == "us".spec_bytes() {  // microsecond: 1e-6
        Some(Unit { conversion_factor: 0x3eb0c6f7a0b5ed8d, base_unit: Dim { halves: [0i128, 0i128, 2i128, 0i128, 0i128, 0i128, 0i128] } })
    } else if sym == "ms".spec_bytes() {  // millisecond: 1e-3
        Some(Unit { conversion_factor: 0x3f50624dd2f1a9fc, base_unit: Dim { halves: [0i128, 0i128, 2i128, 0i128, 0i128, 0i128, 0i128] } })
    } else if sym == "s".spec_bytes() {  // second: 1
        Some(Unit { conversion_factor: 0x3ff0000000000000, base_unit: Dim { halves: [0i128, 0i128, 2i128, 0i128, 0i128, 0i128, 0i128] } })
    } else if sym == "min".spec_bytes() {  // minute: 60
        Some(Unit { conversion_factor: 0x404e000000000000, base_unit: Dim { halves: [0i128, 0i128, 2i128, 0i128, 0i128, 0i128, 0i128] } })
    } else if sym == "h".spec_bytes() {  // hour: 3600
        Some(Unit { conversion_factor: 0x40ac200000000000, base_unit: Dim { halves: [0i128, 0i128, 2i128, 0i128, 0i128, 0i128, 0i128] } })
    } else if sym == "hr".spec_bytes() {  // hour: 3600
        Some(Unit { conversion_factor: 0x40ac200000000000, base_unit: Dim { halves: [0i128, 0i128, 2i128, 0i128, 0i128, 0i128, 0i128] } })
    } else if sym == "d".spec_bytes() {  // day: 86400
        Some(Unit { conversion_factor: 0x40f5180000000000, base_unit: Dim { halves: [0i128, 0i128, 2i128, 0i128, 0i128, 0i128, 0i128] } })
    } else if sym == "wk".spec_bytes() {  // week: 604800
        Some(Unit { conversion_factor: 0x4122750000000000, base_unit: Dim { halves: [0i128, 0i128, 2i128, 0i128, 0i128, 0i128, 0i128] } })
    } else if sym == "mo".spec_bytes() {  // month: 2629800
        Some(Unit { conversion_factor: 0x4144105400000000, base_unit: Dim { halves: [0i128, 0i128, 2i128, 0i128, 0i128, 0i128, 0i128] } })
    } else if sym == "yr".spec_bytes() {  // year: 31536000
        Some(Unit { conversion_factor: 0x417e133800000000, base_unit: Dim { halves: [0i128, 0i128, 2i128, 0i128, 0i128, 0i128, 0i128] } })
    // Temperature
    } else if sym == "C".spec_bytes() {  // celsius: 1
        Some(Unit { conversion_factor: 0x3ff0000000000000, base_unit: Dim { halves: [0i128, 0i128, 0i128, 2i128, 0i128, 0i128, 0i128] } })
    } else if sym == "F".spec_bytes() {  // fahrenheit: 5/9
        Some(Unit { conversion_factor: 0x3fe1c71c71c71c72, base_unit: Dim { halves: [0i128, 0i128, 0i128, 2i128, 0i128, 0i128, 0i128] } })
    } else if sym == "K".spec_bytes() {  // kelvin: 1
        Some(Unit { conversion_factor: 0x3ff0000000000000, base_unit: Dim { halves: [0i128, 0i128, 0i128, 2i128, 0i128, 0i128, 0i128] } })
    // Electric current
    } else if sym == "A".spec_bytes() {  // ampere: 1
        Some(Unit { conversion_factor: 0x3ff0000000000000, base_unit: Dim { halves: [0i128, 0i128, 0i128, 0i128, 2i128, 0i128, 0i128] } })
    } else if sym == "mA".spec_bytes() {  // milliampere: 1e-3
        Some(Unit { conversion_factor: 0x3f50624dd2f1a9fc, base_unit: Dim { halves: [0i128, 0i128, 0i128, 0i128, 2i128, 0i128, 0i128] } })
    } else if sym == "kA".spec_bytes() {  // kiloampere: 1e3
        Some(Unit { conversion_factor: 0x408f400000000000, base_unit: Dim { halves: [0i128, 0i128, 0i128, 0i128, 2i128, 0i128, 0i128] } })
    } else if sym == "MA".spec_bytes() {  // megaampere: 1e6
        Some(Unit { conversion_factor: 0x412e848000000000, base_unit: Dim { halves: [0i128, 0i128, 0i128, 0i128, 2i128, 0i128, 0i128] } })
    // Energy
    } else if sym == "ev".spec_bytes() {  // electronvolt: 1.602176634e-19
        Some(Unit { conversion_factor: 0x3c07a4da290c1653, base_unit: Dim { halves: [4i128, 2i128, -4i128, 0i128, 0i128, 0i128, 0i128] } })
    } else if sym == "mJ".spec_bytes() {  // millijoule: 1e-3
        Some(Unit { conversion_factor: 0x3f50624dd2f1a9fc, base_unit: Dim { halves: [4i128, 2i128, -4i128, 0i128, 0i128, 0i128, 0i128] } })
    } else if sym == "J".spec_bytes() {  // joule: 1
        Some(Unit { conversion_factor: 0x3ff0000000000000, base_unit: Dim { halves: [4i128, 2i128, -4i128, 0i128, 0i128, 0i128, 0i128] } })
    } else if sym == "kJ".spec_bytes() {  // kilojoule: 1e3
        Some(Unit { conversion_factor: 0x408f400000000000, base_unit: Dim { halves: [4i128, 2i128, -4i128, 0i128, 0i128, 0i128, 0i128] } })
    } else if sym == "MJ".spec_bytes() {  // megajoule: 1e6
        Some(Unit { conversion_factor: 0x412e848000000000, base_unit: Dim { halves: [4i128, 2i128, -4i128, 0i128, 0i128, 0i128, 0i128] } })
    } else if sym == "GJ".spec_bytes() {  // gigajoule: 1e9
        Some(Unit { conversion_factor: 0x41cdcd6500000000, base_unit: Dim { halves: [4i128, 2i128, -4i128, 0i128, 0i128, 0i128, 0i128] } })
    } else if sym == "Tj".spec_bytes() {  // terajoule: 1e12
        Some(Unit { conversion_factor: 0x426d1a94a2000000, base_unit: Dim { halves: [4i128, 2i128, -4i128, 0i128, 0i128, 0i128, 0i128] } })
    } else if sym == "cal".spec_bytes() {  // calorie: 4.184
        Some(Unit { conversion_factor: 0x4010bc6a7ef9db23, base_unit: Dim { halves: [4i128, 2i128, -4i128, 0i128, 0i128, 0i128, 0i128] } })
    } else if sym == "kcal".spec_bytes() {  // kilocalorie: 4.184e3
        Some(Unit { conversion_factor: 0x40b0580000000000, base_unit: Dim { halves: [4i128, 2i128, -4i128, 0i128, 0i128, 0i128, 0i128] } })
    } else if sym == "Wh".spec_bytes() {  // watt-hour: 3600
        Some(Unit { conversion_factor: 0x40ac200000000000, base_unit: Dim { halves: [4i128, 2i128, -4i128, 0i128, 0i128, 0i128, 0i128] } })
    } else if sym == "kWh".spec_bytes() {  // kilowatt-hour: 3.6e6
        Some(Unit { conversion_factor: 0x414b774000000000, base_unit: Dim { halves: [4i128, 2i128, -4i128, 0i128, 0i128, 0i128, 0i128] } })
    } else if sym == "BTU".spec_bytes() {  // British thermal unit: 1055.05585
        Some(Unit { conversion_factor: 0x40907c3930be0ded, base_unit: Dim { halves: [4i128, 2i128, -4i128, 0i128, 0i128, 0i128, 0i128] } })
    } else if sym == "erg".spec_bytes() {  // erg: 1e-7
        Some(Unit { conversion_factor: 0x3e7ad7f29abcaf48, base_unit: Dim { halves: [4i128, 2i128, -4i128, 0i128, 0i128, 0i128, 0i128] } })
    // Power
    } else if sym == "W".spec_bytes() {  // watt: 1
        Some(Unit { conversion_factor: 0x3ff0000000000000, base_unit: Dim { halves: [4i128, 2i128, -6i128, 0i128, 0i128, 0i128, 0i128] } })
    } else if sym == "kW".spec_bytes() {  // kilowatt: 1e3
        Some(Unit { conversion_factor: 0x408f400000000000, base_unit: Dim { halves: [4i128, 2i128, -6i128, 0i128, 0i128, 0i128, 0i128] } })
    } else if sym == "MW".spec_bytes() {  // megawatt: 1e6
        Some(Unit { conversion_factor: 0x412e848000000000, base_unit: Dim { halves: [4i128, 2i128, -6i128, 0i128, 0i128, 0i128, 0i128] } })
    } else if sym == "GW".spec_bytes() {  // gigawatt: 1e9
        Some(Unit { conversion_factor: 0x41cdcd6500000000, base_unit: Dim { halves: [4i128, 2i128, -6i128, 0i128, 0i128, 0i128, 0i128] } })
    } else if sym == "TW".spec_bytes() {  // terawatt: 1e12
        Some(Unit { conversion_factor: 0x426d1a94a2000000, base_unit: Dim { halves: [4i128, 2i128, -6i128, 0i128, 0i128, 0i128, 0i128] } })
    } else if sym == "hp".spec_bytes() {  // horsepower: 745.6998715822702
        Some(Unit { conversion_factor: 0x40874d995645aa01, base_unit: Dim { halves: [4i128, 2i128, -6i128, 0i128, 0i128, 0i128, 0i128] } })
    // Amount of substance
    } else if sym == "mol".spec_bytes() {  // mole: 1
        Some(Unit { conversion_factor: 0x3ff0000000000000, base_unit: Dim { halves: [0i128, 0i128, 0i128, 0i128, 0i128, 2i128, 0i128] } })
    } else if sym == "kmol".spec_bytes() {  // kilomole: 1e3
        Some(Unit { conversion_factor: 0x408f400000000000, base_unit: Dim { halves: [0i128, 0i128, 0i128, 0i128, 0i128, 2i128, 0i128] } })
    } else if sym == "mmol".spec_bytes() {  // millimole: 1e-3
        Some(Unit { conversion_factor: 0x3f50624dd2f1a9fc, base_unit: Dim { halves: [0i128, 0i128, 0i128, 0i128, 0i128, 2i128, 0i128] } })
    } else if sym == "umol".spec_bytes() {  // micromole: 1e-6
        Some(Unit { conversion_factor: 0x3eb0c6f7a0b5ed8d, base_unit: Dim { halves: [0i128, 0i128, 0i128, 0i128, 0i128, 2i128, 0i128] } })
    } else if sym == "nmol".spec_bytes() {  // nanomole: 1e-9
        Some(Unit { conversion_factor: 0x3e112e0be826d695, base_unit: Dim { halves: [0i128, 0i128, 0i128, 0i128, 0i128, 2i128, 0i128] } })
    } else if sym == "pmol".spec_bytes() {  // picomole: 1e-12
        Some(Unit { conversion_factor: 0x3d719799812dea11, base_unit: Dim { halves: [0i128, 0i128, 0i128, 0i128, 0i128, 2i128, 0i128] } })
    } else if sym == "fmol".spec_bytes() {  // femtomole: 1e-15
        Some(Unit { conversion_factor: 0x3cd203af9ee75616, base_unit: Dim { halves: [0i128, 0i128, 0i128, 0i128, 0i128, 2i128, 0i128] } })
    // Luminous intensity
    } else if sym == "cd".spec_bytes() {  // candela: 1
        Some(Unit { conversion_factor: 0x3ff0000000000000, base_unit: Dim { halves: [0i128, 0i128, 0i128, 0i128, 0i128, 0i128, 2i128] } })
    } else if sym == "lux".spec_bytes() {  // lux: 1
        Some(Unit { conversion_factor: 0x3ff0000000000000, base_unit: Dim { halves: [0i128, 0i128, -4i128, 0i128, 0i128, 0i128, 2i128] } })
    // Angle
    } else if sym == "rad".spec_bytes() {  // radian: 1
        Some(Unit { conversion_factor: 0x3ff0000000000000, base_unit: Dim { halves: [0i128, 0i128, 0i128, 0i128, 0i128, 0i128, 0i128] } })
    } else if sym == "deg".spec_bytes() {  // degree: pi/180
        Some(Unit { conversion_factor: 0x3f91df46a2529d39, base_unit: Dim { halves: [0i128, 0i128, 0i128, 0i128, 0i128, 0i128, 0i128] } })
    } else {
        None
    }
}

/// Looks a unit symbol up in the registry; `None` for an unknown symbol.
#[verifier::rlimit(60)]
pub fn lookup(symbol: &[u8]) -> (r: Option<Unit>)
    ensures
        r == spec_lookup(symbol@),
{
    proof {
        reveal(spec_lookup);
    }
    // Length
    if bytes_eq(symbol, "m".as_bytes()) {  // meter: 1
        Some(Unit { conversion_factor: 0x3ff0000000000000, base_unit: Dim { halves: [2i128, 0i128, 0i128, 0i128, 0i128, 0i128, 0i128] } })
    } else if bytes_eq(symbol, "cm".as_bytes()) {  // centimeter: 1e-2
        Some(Unit { conversion_factor: 0x3f847ae147ae147b, base_unit: Dim { halves: [2i128, 0i128, 0i128, 0i128, 0i128, 0i128, 0i128] } })
    } else if bytes_eq(symbol, "mm".as_bytes()) {  // millimeter: 1e-3
        Some(Unit { conversion_factor: 0x3f50624dd2f1a9fc, base_unit: Dim { halves: [2i128, 0i128, 0i128, 0i128, 0i128, 0i128, 0i128] } })
    } else if bytes_eq(symbol, "um".as_bytes()) {  // micrometer: 1e-6
        Some(Unit { conversion_factor: 0x3eb0c6f7a0b5ed8d, base_unit: Dim { halves: [2i128, 0i128, 0i128, 0i128, 0i128, 0i128, 0i128] } })
    } else if bytes_eq(symbol, "nm".as_bytes()) {  // nanometer: 1e-9
        Some(Unit { conversion_factor: 0x3e112e0be826d695, base_unit: Dim { halves: [2i128, 0i128, 0i128, 0i128, 0i128, 0i128, 0i128] } })
    } else if bytes_eq(symbol, "km".as_bytes()) {  // kilometer: 1e3
        Some(Unit { conversion_factor: 0x408f400000000000, base_unit: Dim { halves: [2i128, 0i128, 0i128, 0i128, 0i128, 0i128, 0i128] } })
    } else if bytes_eq(symbol, "mi".as_bytes()) {  // mile: 1609.344
        Some(Unit { conversion_factor: 0x409925604189374c, base_unit: Dim { halves: [2i128, 0i128, 0i128, 0i128, 0i128, 0i128, 0i128] } })
    } else if bytes_eq(symbol, "yd".as_bytes()) {  // yard: 0.9144
        Some(Unit { conversion_factor: 0x3fed42c3c9eecbfb, base_unit: Dim { halves: [2i128, 0i128, 0i128, 0i128, 0i128, 0i128, 0i128] } })
    } else if bytes_eq(symbol, "ft".as_bytes()) {  // foot: 0.3048
        Some(Unit { conversion_factor: 0x3fd381d7dbf487fd, base_unit: Dim { halves: [2i128, 0i128, 0i128, 0i128, 0i128, 0i128, 0i128] } })
    } else if bytes_eq(symbol, "in".as_bytes()) {  // inch: 2.54e-2
        Some(Unit { conversion_factor: 0x3f9a027525460aa6, base_unit: Dim { halves: [2i128, 0i128, 0i128, 0i128, 0i128, 0i128, 0i128] } })
    } else if bytes_eq(symbol, "ly".as_bytes()) {  // light year: 9.4607e15
        Some(Unit { conversion_factor: 0x4340ce3a6f69cc00, base_unit: Dim { halves: [2i128, 0i128, 0i128, 0i128, 0i128, 0i128, 0i128] } })
    } else if bytes_eq(symbol, "pc".as_bytes()) {  // parsec: 3.0857e16
        Some(Unit { conversion_factor: 0x435b6811caf56400, base_unit: Dim { halves: [2i128, 0i128, 0i128, 0i128, 0i128, 0i128, 0i128] } })
    // Area
    } else if bytes_eq(symbol, "ha".as_bytes()) {  // hectare: 1e4
        Some(Unit { conversion_factor: 0x40c3880000000000, base_unit: Dim { halves: [4i128, 0i128, 0i128, 0i128, 0i128, 0i128, 0i128] } })
    } else if bytes_eq(symbol, "ac".as_bytes()) {  // acre: 4046.8564224
        Some(Unit { conversion_factor: 0x40af9db67cff2f20, base_unit: Dim { halves: [4i128, 0i128, 0i128, 0i128, 0i128, 0i128, 0i128] } })
    // Volume
    } else if bytes_eq(symbol, "l".as_bytes()) {  // liter: 1e-3
        Some(Unit { conversion_factor: 0x3f50624dd2f1a9fc, base_unit: Dim { halves: [6i128, 0i128, 0i128, 0i128, 0i128, 0i128, 0i128] } })
    } else if bytes_eq(symbol, "ml".as_bytes()) {  // milliliter: 1e-6
        Some(Unit { conversion_factor: 0x3eb0c6f7a0b5ed8d, base_unit: Dim { halves: [6i128, 0i128, 0i128, 0i128, 0i128, 0i128, 0i128] } })
    } else if bytes_eq(symbol, "gal".as_bytes()) {  // gallon: 3.785411784
        Some(Unit { conversion_factor: 0x400e4885f9316256, base_unit: Dim { halves: [6i128, 0i128, 0i128, 0i128, 0i128, 0i128, 0i128] } })
    } else if bytes_eq(symbol, "qt".as_bytes()) {  // quart: 9.4635284e-1
        Some(Unit { conversion_factor: 0x3fee4885c048dae5, base_unit: Dim { halves: [6i128, 0i128, 0i128, 0i128, 0i128, 0i128, 0i128] } })
    } else if bytes_eq(symbol, "pt".as_bytes()) {  // pint: 4.7317642e-1
        Some(Unit { conversion_factor: 0x3fde4885c048dae5, base_unit: Dim { halves: [6i128, 0i128, 0i128, 0i128, 0i128, 0i128, 0i128] } })
    } else if bytes_eq(symbol, "cup".as_bytes()) {  // cup: 2.3658821e-1
        Some(Unit { conversion_factor: 0x3fce4885c048dae5, base_unit: Dim { halves: [6i128, 0i128, 0i128, 0i128, 0i128, 0i128, 0i128] } })
    // Velocity
    } else if bytes_eq(symbol, "kn".as_bytes()) {  // knot: 1852/3600
        Some(Unit { conversion_factor: 0x3fe07654320fedcc, base_unit: Dim { halves: [2i128, 0i128, -2i128, 0i128, 0i128, 0i128, 0i128] } })
    // Force
    } else if bytes_eq(symbol, "N".as_bytes()) {  // newton: 1
        Some(Unit { conversion_factor: 0x3ff0000000000000, base_unit: Dim { halves: [2i128, 2i128, -4i128, 0i128, 0i128, 0i128, 0i128] } })
    } else if bytes_eq(symbol, "kN".as_bytes()) {  // kilonewton: 1e3
        Some(Unit { conversion_factor: 0x408f400000000000, base_unit: Dim { halves: [2i128, 2i128, -4i128, 0i128, 0i128, 0i128, 0i128] } })
    } else if bytes_eq(symbol, "lbf".as_bytes()) {  // pound-force: 4.4482216152605
        Some(Unit { conversion_factor: 0x4011cafa9b6b9dd7, base_unit: Dim { halves: [2i128, 2i128, -4i128, 0i128, 0i128, 0i128, 0i128] } })
    // Mass
    } else if bytes_eq(symbol, "kg".as_bytes()) {  // kilogram: 1
        Some(Unit { conversion_factor: 0x3ff0000000000000, base_unit: Dim { halves: [0i128, 2i128, 0i128, 0i128, 0i128, 0i128, 0i128] } })
    } else if bytes_eq(symbol, "g".as_bytes()) {  // gram: 1e-3
        Some(Unit { conversion_factor: 0x3f50624dd2f1a9fc, base_unit: Dim { halves: [0i128, 2i128, 0i128, 0i128, 0i128, 0i128, 0i128] } })
    } else if bytes_eq(symbol, "mg".as_bytes()) {  // milligram: 1e-6
        Some(Unit { conversion_factor: 0x3eb0c6f7a0b5ed8d, base_unit: Dim { halves: [0i128, 2i128, 0i128, 0i128, 0i128, 0i128, 0i128] } })
    } else if bytes_eq(symbol, "t".as_bytes()) {  // metric ton: 1e3
        Some(Unit { conversion_factor: 0x408f400000000000, base_unit: Dim { halves: [0i128, 2i128, 0i128, 0i128, 0i128, 0i128, 0i128] } })
    } else if bytes_eq(symbol, "lb".as_bytes()) {  // pound: 0.45359237
        Some(Unit { conversion_factor: 0x3fdd07a84ab75e51, base_unit: Dim { halves: [0i128, 2i128, 0i128, 0i128, 0i128, 0i128, 0i128] } })
    } else if bytes_eq(symbol, "oz".as_bytes()) {  // ounce: 0.028349523125
        Some(Unit { conversion_factor: 0x3f9d07a84ab75e51, base_unit: Dim { halves: [0i128, 2i128, 0i128, 0i128, 0i128, 0i128, 0i128] } })
    // Time
    } else if bytes_eq(symbol, "ns".as_bytes()) {  // nanosecond: 1e-9
        Some(Unit { conversion_factor: 0x3e112e0be826d695, base_unit: Dim { halves: [0i128, 0i128, 2i128, 0i128, 0i128, 0i128, 0i128] } })
    } else if bytes_eq(symbol, "us".as_bytes()) {  // microsecond: 1e-6
        Some(Unit { conversion_factor: 0x3eb0c6f7a0b5ed8d, base_unit: Dim { halves: [0i128, 0i128, 2i128, 0i128, 0i128, 0i128, 0i128] } })
    } else if bytes_eq(symbol, "ms".as_bytes()) {  // millisecond: 1e-3
        Some(Unit { conversion_factor: 0x3f50624dd2f1a9fc, base_unit: Dim { halves: [0i128, 0i128, 2i128, 0i128, 0i128, 0i128, 0i128] } })
    } else if bytes_eq(symbol, "s".as_bytes()) {  // second: 1
        Some(Unit { conversion_factor: 0x3ff0000000000000, base_unit: Dim { halves: [0i128, 0i128, 2i128, 0i128, 0i128, 0i128, 0i128] } })
    } else if bytes_eq(symbol, "min".as_bytes()) {  // minute: 60
        Some(Unit { conversion_factor: 0x404e000000000000, base_unit: Dim { halves: [0i128, 0i128, 2i128, 0i128, 0i128, 0i128, 0i128] } })
    } else if bytes_eq(symbol, "h".as_bytes()) {  // hour: 3600
        Some(Unit { conversion_factor: 0x40ac200000000000, base_unit: Dim { halves: [0i128, 0i128, 2i128, 0i128, 0i128, 0i128, 0i128] } })
    } else if bytes_eq(symbol, "hr".as_bytes()) {  // hour: 3600
        Some(Unit { conversion_factor: 0x40ac200000000000, base_unit: Dim { halves: [0i128, 0i128, 2i128, 0i128, 0i128, 0i128, 0i128] } })
    } else if bytes_eq(symbol, "d".as_bytes()) {  // day: 86400
        Some(Unit { conversion_factor: 0x40f5180000000000, base_unit: Dim { halves: [0i128, 0i128, 2i128, 0i128, 0i128, 0i128, 0i128] } })
    } else if bytes_eq(symbol, "wk".as_bytes()) {  // week: 604800
        Some(Unit { conversion_factor: 0x4122750000000000, base_unit: Dim { halves: [0i128, 0i128, 2i128, 0i128, 0i128, 0i128, 0i128] } })
    } else if bytes_eq(symbol, "mo".as_bytes()) {  // month: 2629800
        Some(Unit { conversion_factor: 0x4144105400000000, base_unit: Dim { halves: [0i128, 0i128, 2i128, 0i128, 0i128, 0i128, 0i128] } })
    } else if bytes_eq(symbol, "yr".as_bytes()) {  // year: 31536000
        Some(Unit { conversion_factor: 0x417e133800000000, base_unit: Dim { halves: [0i128, 0i128, 2i128, 0i128, 0i128, 0i128, 0i128] } })
    // Temperature
    } else if bytes_eq(symbol, "C".as_bytes()) {  // celsius: 1
        Some(Unit { conversion_factor: 0x3ff0000000000000, base_unit: Dim { halves: [0i128, 0i128, 0i128, 2i128, 0i128, 0i128, 0i128] } })
    } else if bytes_eq(symbol, "F".as_bytes()) {  // fahrenheit: 5/9
        Some(Unit { conversion_factor: 0x3fe1c71c71c71c72, base_unit: Dim { halves: [0i128, 0i128, 0i128, 2i128, 0i128, 0i128, 0i128] } })
    } else if bytes_eq(symbol, "K".as_bytes()) {  // kelvin: 1
        Some(Unit { conversion_factor: 0x3ff0000000000000, base_unit: Dim { halves: [0i128, 0i128, 0i128, 2i128, 0i128, 0i128, 0i128] } })
    // Electric current
    } else if bytes_eq(symbol, "A".as_bytes()) {  // ampere: 1
        Some(Unit { conversion_factor: 0x3ff0000000000000, base_unit: Dim { halves: [0i128, 0i128, 0i128, 0i128, 2i128, 0i128, 0i128] } })
    } else if bytes_eq(symbol, "mA".as_bytes()) {  // milliampere: 1e-3
        Some(Unit { conversion_factor: 0x3f50624dd2f1a9fc, base_unit: Dim { halves: [0i128, 0i128, 0i128, 0i128, 2i128, 0i128, 0i128] } })
    } else if bytes_eq(symbol, "kA".as_bytes()) {  // kiloampere: 1e3
        Some(Unit { conversion_factor: 0x408f400000000000, base_unit: Dim { halves: [0i128, 0i128, 0i128, 0i128, 2i128, 0i128, 0i128] } })
    } else if bytes_eq(symbol, "MA".as_bytes()) {  // megaampere: 1e6
        Some(Unit { conversion_factor: 0x412e848000000000, base_unit: Dim { halves: [0i128, 0i128, 0i128, 0i128, 2i128, 0i128, 0i128] } })
    // Energy
    } else if bytes_eq(symbol, "ev".as_bytes()) {  // electronvolt: 1.602176634e-19
        Some(Unit { conversion_factor: 0x3c07a4da290c1653, base_unit: Dim { halves: [4i128, 2i128, -4i128, 0i128, 0i128, 0i128, 0i128] } })
    } else if bytes_eq(symbol, "mJ".as_bytes()) {  // millijoule: 1e-3
        Some(Unit { conversion_factor: 0x3f50624dd2f1a9fc, base_unit: Dim { halves: [4i128, 2i128, -4i128, 0i128, 0i128, 0i128, 0i128] } })
    } else if bytes_eq(symbol, "J".as_bytes()) {  // joule: 1
        Some(Unit { conversion_factor: 0x3ff0000000000000, base_unit: Dim { halves: [4i128, 2i128, -4i128, 0i128, 0i128, 0i128, 0i128] } })
    } else if bytes_eq(symbol, "kJ".as_bytes()) {  // kilojoule: 1e3
        Some(Unit { conversion_factor: 0x408f400000000000, base_unit: Dim { halves: [4i128, 2i128, -4i128, 0i128, 0i128, 0i128, 0i128] } })
    } else if bytes_eq(symbol, "MJ".as_bytes()) {  // megajoule: 1e6
        Some(Unit { conversion_factor: 0x412e848000000000, base_unit: Dim { halves: [4i128, 2i128, -4i128, 0i128, 0i128, 0i128, 0i128] } })
    } else if bytes_eq(symbol, "GJ".as_bytes()) {  // gigajoule: 1e9
        Some(Unit { conversion_factor: 0x41cdcd6500000000, base_unit: Dim { halves: [4i128, 2i128, -4i128, 0i128, 0i128, 0i128, 0i128] } })
    } else if bytes_eq(symbol, "Tj".as_bytes()) {  // terajoule: 1e12
        Some(Unit { conversion_factor: 0x426d1a94a2000000, base_unit: Dim { halves: [4i128, 2i128, -4i128, 0i128, 0i128, 0i128, 0i128] } })
    } else if bytes_eq(symbol, "cal".as_bytes()) {  // calorie: 4.184
        Some(Unit { conversion_factor: 0x4010bc6a7ef9db23, base_unit: Dim { halves: [4i128, 2i128, -4i128, 0i128, 0i128, 0i128, 0i128] } })
    } else if bytes_eq(symbol, "kcal".as_bytes()) {  // kilocalorie: 4.184e3
        Some(Unit { conversion_factor: 0x40b0580000000000, base_unit: Dim { halves: [4i128, 2i128, -4i128, 0i128, 0i128, 0i128, 0i128] } })
    } else if bytes_eq(symbol, "Wh".as_bytes()) {  // watt-hour: 3600
        Some(Unit { conversion_factor: 0x40ac200000000000, base_unit: Dim { halves: [4i128, 2i128, -4i128, 0i128, 0i128, 0i128, 0i128] } })
    } else if bytes_eq(symbol, "kWh".as_bytes()) {  // kilowatt-hour: 3.6e6
        Some(Unit { conversion_factor: 0x414b774000000000, base_unit: Dim { halves: [4i128, 2i128, -4i128, 0i128, 0i128, 0i128, 0i128] } })
    } else if bytes_eq(symbol, "BTU".as_bytes()) {  // British thermal unit: 1055.05585
        Some(Unit { conversion_factor: 0x40907c3930be0ded, base_unit: Dim { halves: [4i128, 2i128, -4i128, 0i128, 0i128, 0i128, 0i128] } })
    } else if bytes_eq(symbol, "erg".as_bytes()) {  // erg: 1e-7
        Some(Unit { conversion_factor: 0x3e7ad7f29abcaf48, base_unit: Dim { halves: [4i128, 2i128, -4i128, 0i128, 0i128, 0i128, 0i128] } })
    // Power
    } else if bytes_eq(symbol, "W".as_bytes()) {  // watt: 1
        Some(Unit { conversion_factor: 0x3ff0000000000000, base_unit: Dim { halves: [4i128, 2i128, -6i128, 0i128, 0i128, 0i128, 0i128] } })
    } else if bytes_eq(symbol, "kW".as_bytes()) {  // kilowatt: 1e3
        Some(Unit { conversion_factor: 0x408f400000000000, base_unit: Dim { halves: [4i128, 2i128, -6i128, 0i128, 0i128, 0i128, 0i128] } })
    } else if bytes_eq(symbol, "MW".as_bytes()) {  // megawatt: 1e6
        Some(Unit { conversion_factor: 0x412e848000000000, base_unit: Dim { halves: [4i128, 2i128, -6i128, 0i128, 0i128, 0i128, 0i128] } })
    } else if bytes_eq(symbol, "GW".as_bytes()) {  // gigawatt: 1e9
        Some(Unit { conversion_factor: 0x41cdcd6500000000, base_unit: Dim { halves: [4i128, 2i128, -6i128, 0i128, 0i128, 0i128, 0i128] } })
    } else if bytes_eq(symbol, "TW".as_bytes()) {  // terawatt: 1e12
        Some(Unit { conversion_factor: 0x426d1a94a2000000, base_unit: Dim { halves: [4i128, 2i128, -6i128, 0i128, 0i128, 0i128, 0i128] } })
    } else if bytes_eq(symbol, "hp".as_bytes()) {  // horsepower: 745.6998715822702
        Some(Unit { conversion_factor: 0x40874d995645aa01, base_unit: Dim { halves: [4i128, 2i128, -6i128, 0i128, 0i128, 0i128, 0i128] } })
    // Amount of substance
    } else if bytes_eq(symbol, "mol".as_bytes()) {  // mole: 1
        Some(Unit { conversion_factor: 0x3ff0000000000000, base_unit: Dim { halves: [0i128, 0i128, 0i128, 0i128, 0i128, 2i128, 0i128] } })
    } else if bytes_eq(symbol, "kmol".as_bytes()) {  // kilomole: 1e3
        Some(Unit { conversion_factor: 0x408f400000000000, base_unit: Dim { halves: [0i128, 0i128, 0i128, 0i128, 0i128, 2i128, 0i128] } })
    } else if bytes_eq(symbol, "mmol".as_bytes()) {  // millimole: 1e-3
        Some(Unit { conversion_factor: 0x3f50624dd2f1a9fc, base_unit: Dim { halves: [0i128, 0i128, 0i128, 0i128, 0i128, 2i128, 0i128] } })
    } else if bytes_eq(symbol, "umol".as_bytes()) {  // micromole: 1e-6
        Some(Unit { conversion_factor: 0x3eb0c6f7a0b5ed8d, base_unit: Dim { halves: [0i128, 0i128, 0i128, 0i128, 0i128, 2i128, 0i128] } })
    } else if bytes_eq(symbol, "nmol".as_bytes()) {  // nanomole: 1e-9
        Some(Unit { conversion_factor: 0x3e112e0be826d695, base_unit: Dim { halves: [0i128, 0i128, 0i128, 0i128, 0i128, 2i128, 0i128] } })
    } else if bytes_eq(symbol, "pmol".as_bytes()) {  // picomole: 1e-12
        Some(Unit { conversion_factor: 0x3d719799812dea11, base_unit: Dim { halves: [0i128, 0i128, 0i128, 0i128, 0i128, 2i128, 0i128] } })
    } else if bytes_eq(symbol, "fmol".as_bytes()) {  // femtomole: 1e-15
        Some(Unit { conversion_factor: 0x3cd203af9ee75616, base_unit: Dim { halves: [0i128, 0i128, 0i128, 0i128, 0i128, 2i128, 0i128] } })
    // Luminous intensity
    } else if bytes_eq(symbol, "cd".as_bytes()) {  // candela: 1
        Some(Unit { conversion_factor: 0x3ff0000000000000, base_unit: Dim { halves: [0i128, 0i128, 0i128, 0i128, 0i128, 0i128, 2i128] } })
    } else if bytes_eq(symbol, "lux".as_bytes()) {  // lux: 1
        Some(Unit { conversion_factor: 0x3ff0000000000000, base_unit: Dim { halves: [0i128, 0i128, -4i128, 0i128, 0i128, 0i128, 2i128] } })
    // Angle
    } else if bytes_eq(symbol, "rad".as_bytes()) {  // radian: 1
        Some(Unit { conversion_factor: 0x3ff0000000000000, base_unit: Dim { halves: [0i128, 0i128, 0i128, 0i128, 0i128, 0i128, 0i128] } })
    } else if bytes_eq(symbol, "deg".as_bytes()) {  // degree: pi/180
        Some(Unit { conversion_factor: 0x3f91df46a2529d39, base_unit: Dim { halves: [0i128, 0i128, 0i128, 0i128, 0i128, 0i128, 0i128] } })
    } else {
        None
    }
}

} // verus!
