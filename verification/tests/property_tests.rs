use dv_rs::DimensionalVariable as Dv;
use dv_rs::DvError;

const FAIL_MSG: &str = "Failed to create DimensionalVariable";

fn q(value: f64, unit: &str) -> Dv {
    Dv::new(value.to_bits(), unit).expect(FAIL_MSG)
}

fn out(v: &Dv) -> f64 {
    f64::from_bits(v.value())
}

#[test]
fn round_trip_recovers_value() {
    // construct(v, u).value_in(u) == v within floating-point precision.
    let cases: [(f64, &str); 6] = [
        (1.0, "m"),
        (4.6483, "mi/hr"),
        (-2.5, "BTU-in/hr-ft^2-F"),
        (1e-9, "kg-m/s^2"),
        (123456.789, "kWh"),
        (0.5, "deg"),
    ];
    for (v, u) in cases {
        let dv = q(v, u);
        let back = f64::from_bits(dv.value_in(u).expect(FAIL_MSG));
        assert!(
            (back - v).abs() <= 1e-12 * v.abs(),
            "round trip through {} gave {} for {}",
            u,
            back,
            v
        );
    }
}

#[test]
fn term_order_keeps_vector_and_factor() {
    // parse("a-b") and parse("b-a") yield identical vectors and factors.
    let a = q(1.0, "kg-m");
    let b = q(1.0, "m-kg");
    assert_eq!(a.unit().halves, b.unit().halves);
    assert_eq!(a.value(), b.value());

    let c = q(2.0, "BTU-in");
    let d = q(2.0, "in-BTU");
    assert_eq!(c.unit().halves, d.unit().halves);
    assert_eq!(c.value(), d.value());
}

#[test]
fn dimension_composition_restores_operand() {
    // (x * y) / y has the vector of x and a value within tolerance of x's.
    let xs = [q(3.5, "m/s"), q(-2.0, "kg"), q(7.25, "J")];
    let ys = [q(2.0, "s"), q(0.3, "BTU"), q(-4.0, "m^2")];
    for x in &xs {
        for y in &ys {
            let z = x.mul(y).div(y);
            assert_eq!(z.unit().halves, x.unit().halves);
            assert!((out(&z) - out(x)).abs() <= 1e-12 * out(x).abs());
        }
    }
}

#[test]
fn mismatch_is_error_and_incomparable() {
    let m = q(1.0, "m");
    let s = q(1.0, "s");
    assert!(matches!(m.try_add(&s), Err(DvError::DimensionMismatch)));
    assert!(matches!(m.try_sub(&s), Err(DvError::DimensionMismatch)));
    assert!(m.partial_cmp(&s).is_none());
    assert!(!(m < s) && !(m <= s) && !(m > s) && !(m >= s));
}

#[test]
fn scenario_mile_per_hour() {
    let dv = q(1.0, "mi/h");
    assert_eq!(out(&dv), 0.44704);
    assert_eq!(dv.unit().halves, [2, 0, -2, 0, 0, 0, 0]);
}

#[test]
fn scenario_heat_transfer_coefficient() {
    let dv = q(1.0, "BTU-in/h-ft^2-F");
    assert_eq!(out(&dv), 0.1442278885061242);
    assert_eq!(dv.unit().halves, [2, 2, -6, -2, 0, 0, 0]);
}

#[test]
fn scenario_conduction_product() {
    let k = q(4.0, "BTU-in/hr-ft^2-F");
    let a = q(10.0, "cm^2");
    let dt = q(200.0, "K");
    let l = q(5.0, "mm");
    let w = k.mul(&a).mul(&dt).div(&l);
    assert_eq!(out(&w), 23.076462160979872);
    assert_eq!(w.unit().halves, [4, 2, -6, 0, 0, 0, 0]);
}

#[test]
fn scenario_sqrt_of_velocity_squared() {
    let v2 = q(9.0, "m^2/s^2");
    let unit = v2.sqrt_unit().expect(FAIL_MSG);
    assert_eq!(f64::from_bits(v2.value()).sqrt(), 3.0);
    assert_eq!(unit.halves, [2, 0, -2, 0, 0, 0, 0]);
}

#[test]
fn scenario_sqrt_of_negative_is_domain_error() {
    let neg = q(-1.0, "m^2");
    assert!(matches!(neg.sqrt_unit(), Err(DvError::NegativeSqrt)));
}

#[test]
fn sqrt_of_half_integer_exponent_is_error() {
    // A second square root would need exponents finer than half-integers.
    let c = q(16.0, "m^3");
    let first = c.sqrt_unit().expect(FAIL_MSG);
    let half = Dv { value: 4.0f64.to_bits(), unit: first };
    assert!(matches!(half.sqrt_unit(), Err(DvError::FractionalExponent)));
}

#[test]
fn powi_zero_gives_unitless_one() {
    let a = q(123.25, "kg-m/s^2");
    let p = a.powi(0);
    assert_eq!(out(&p), 1.0);
    assert!(p.is_unitless());

    let n = a.powi(-2);
    assert_eq!(n.unit().halves, [-4, -4, 8, 0, 0, 0, 0]);
    assert!((out(&n) - 1.0 / (123.25f64 * 123.25)).abs() < 1e-16);
}

#[test]
fn equality_is_exact_and_nan_never_equal() {
    let a = q(0.0, "m");
    let b = q(-0.0, "m");
    assert!(a == b, "positive and negative zero compare equal");

    let nan = Dv { value: f64::NAN.to_bits(), unit: a.unit() };
    assert!(nan != nan, "NaN is not equal to itself");
    assert!(nan.partial_cmp(&nan).is_none());
}

#[test]
fn division_by_zero_follows_ieee() {
    let d = q(1.0, "m").div(&q(0.0, "s"));
    assert!(out(&d).is_infinite());
    let n = q(0.0, "m").div(&q(0.0, "s"));
    assert!(out(&n).is_nan());
}

#[test]
fn unchecked_scalar_paths_change_value() {
    // Each arithmetic path really computes: handing an operand back
    // unchanged would fail these.
    let m = q(8.0, "m");
    assert_eq!(out(&m.mul_scalar(0.25f64.to_bits())), 2.0);
    assert_eq!(out(&m.div_scalar(0.25f64.to_bits())), 32.0);
    assert_eq!(out(&m.rdiv_scalar(2.0f64.to_bits())), 0.25);
    assert_eq!(out(&m.neg()), -8.0);
    assert_eq!(out(&m.try_add(&m).unwrap()), 16.0);
    assert_eq!(out(&m.try_sub(&q(3.0, "m")).unwrap()), 5.0);
}
