use dv_rs::DimensionalVariable as Dv;
use std::f64::consts::PI;

const FAIL_MSG: &str = "Failed to create DimensionalVariable";

fn build(value: f64, unit: &str) -> Dv {
    Dv::new(value.to_bits(), unit).expect(FAIL_MSG)
}

fn raw(v: &Dv) -> f64 {
    f64::from_bits(v.value())
}

fn dims_of(v: &Dv) -> [f64; 7] {
    let h = v.unit().halves;
    [
        h[0] as f64 / 2.0,
        h[1] as f64 / 2.0,
        h[2] as f64 / 2.0,
        h[3] as f64 / 2.0,
        h[4] as f64 / 2.0,
        h[5] as f64 / 2.0,
        h[6] as f64 / 2.0,
    ]
}

#[test]
fn units_tests_nominal_value_and_unit() {
    let dv = build(4.6483, "m");
    assert_eq!(raw(&dv), 4.6483, "Expected value to be 4.6483");
}

#[test]
fn units_tests_unit_str_to_unit_simple_simple() {
    let dv = build(4.6483, "m/s");
    assert_eq!(raw(&dv), 4.6483, "Expected value to be 4.6483");
    assert_eq!(dims_of(&dv), [1.0, 0.0, -1.0, 0.0, 0.0, 0.0, 0.0], "Expected unit to be [1, 0, -1, 0, 0, 0, 0]");

    let dv = build(1.0, "mi/hr");
    assert_eq!(raw(&dv), 0.44704, "Incorrect conversion for mi/hr");
    assert_eq!(dims_of(&dv), [1.0, 0.0, -1.0, 0.0, 0.0, 0.0, 0.0], "Incorrect unit for mi/hr");
}

#[test]
fn units_tests_unit_str_to_unit_simple_exponent() {
    let dv = build(4.6483, "m/s^2");
    assert_eq!(raw(&dv), 4.6483, "Expected value to be 4.6483");
    assert_eq!(dims_of(&dv), [1.0, 0.0, -2.0, 0.0, 0.0, 0.0, 0.0], "Incorrect unit for m/s^2");

    let dv = build(4.6483, "mi/hr^2");
    assert_eq!(raw(&dv), 0.0005772155644444445, "Incorrect conversion for mi/hr^2");
    assert_eq!(dims_of(&dv), [1.0, 0.0, -2.0, 0.0, 0.0, 0.0, 0.0], "Incorrect unit for mi/hr^2");

    let dv = build(1.0, "m^2/s^-2");
    assert_eq!(dims_of(&dv), [2.0, 0.0, 2.0, 0.0, 0.0, 0.0, 0.0], "Incorrect unit for m^2/s^-2");
}

#[test]
fn units_tests_unit_str_to_unit_complex() {
    let dv = build(1.0, "BTU-in/hr-ft^2-F");
    assert_eq!(raw(&dv), 0.1442278885061242, "Incorrect conversion for BTU-in/hr-ft^2-F");
    assert_eq!(dims_of(&dv), [1.0, 1.0, -3.0, -1.0, 0.0, 0.0, 0.0], "Incorrect unit for BTU-in/hr-ft^2-F");
}

#[test]
fn units_tests_unit_conversion() {
    let d = build(1.0, "m");
    assert_eq!(f64::from_bits(d.value_in("cm").expect(FAIL_MSG)), 100.0);

    let d = build(1.0, "m/s");
    assert_eq!(f64::from_bits(d.value_in("mi/hr").expect(FAIL_MSG)), 2.2369362920544025);
}

#[test]
fn units_tests_bad_unit_conversion() {
    let d = build(1.0, "m");
    let result = d.value_in("hr");
    assert!(result.is_err(), "Expected error on unknown unit conversion");

    let d = build(1.0, "m/s");
    let result = d.value_in("btu");
    assert!(result.is_err(), "Expected error on unknown unit conversion");
}

#[test]
fn units_tests_errors_on_unknown_unit() {
    let result = Dv::new(1.0f64.to_bits(), "unknown_unit");
    assert!(result.is_err(), "Expected error on unknown unit");
}

#[test]
fn angle_units_are_dimensionless() {
    // Radians are treated as unitless in the base representation.
    let angle = build(PI, "rad");
    assert!(angle.is_unitless());
    // Degrees convert through pi/180.
    let right = build(180.0, "deg");
    assert!((raw(&right) - PI).abs() < 1e-12);
    assert!((f64::from_bits(right.value_in("rad").expect(FAIL_MSG)) - PI).abs() < 1e-12);
}

#[test]
fn lookup_is_case_sensitive() {
    assert!(dv_rs::units::lookup(b"K").is_some());
    assert!(dv_rs::units::lookup(b"k").is_none());
    assert!(dv_rs::units::lookup(b"BTU").is_some());
    assert!(dv_rs::units::lookup(b"btu").is_none());
}

#[test]
fn lookup_factors_and_vectors() {
    let mi = dv_rs::units::lookup(b"mi").unwrap();
    assert_eq!(f64::from_bits(mi.conversion_factor), 1609.344);
    assert_eq!(mi.base_unit.halves, [2, 0, 0, 0, 0, 0, 0]);

    let w = dv_rs::units::lookup(b"W").unwrap();
    assert_eq!(f64::from_bits(w.conversion_factor), 1.0);
    assert_eq!(w.base_unit.halves, [4, 2, -6, 0, 0, 0, 0]);

    let f = dv_rs::units::lookup(b"F").unwrap();
    assert_eq!(f64::from_bits(f.conversion_factor), 5.0 / 9.0);
    assert_eq!(f.base_unit.halves, [0, 0, 0, 2, 0, 0, 0]);

    assert!(dv_rs::units::lookup(b"").is_none());
}
