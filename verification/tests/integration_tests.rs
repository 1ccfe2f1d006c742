use dv_rs::DimensionalVariable as Dv;

const FAIL_MSG: &str = "Failed to create DimensionalVariable";

fn make(value: f64, unit: &str) -> Dv {
    Dv::new(value.to_bits(), unit).expect(FAIL_MSG)
}

fn value_of(v: &Dv) -> f64 {
    f64::from_bits(v.value())
}

fn exponents(v: &Dv) -> [i128; 7] {
    let h = v.unit().halves;
    [h[0] / 2, h[1] / 2, h[2] / 2, h[3] / 2, h[4] / 2, h[5] / 2, h[6] / 2]
}

#[test]
fn integration_tests_nominal_value_and_unit() {
    let dv = make(4.6483, "m");
    assert_eq!(value_of(&dv), 4.6483, "Expected value to be 4.6483");
}

#[test]
fn integration_tests_unit_str_to_unit_simple_simple() {
    let dv = make(4.6483, "m/s");
    assert_eq!(value_of(&dv), 4.6483, "Expected value to be 4.6483");
    assert_eq!(exponents(&dv), [1, 0, -1, 0, 0, 0, 0], "Expected unit to be [1, 0, -1, 0, 0, 0, 0]");

    let dv = make(1.0, "mi/h");
    assert_eq!(value_of(&dv), 0.44704, "Incorrect conversion for mi/h");
    assert_eq!(exponents(&dv), [1, 0, -1, 0, 0, 0, 0], "Incorrect unit for mi/h");
}

#[test]
fn integration_tests_unit_str_to_unit_simple_exponent() {
    let dv = make(4.6483, "m/s^2");
    assert_eq!(value_of(&dv), 4.6483, "Expected value to be 4.6483");
    assert_eq!(exponents(&dv), [1, 0, -2, 0, 0, 0, 0], "Incorrect unit for m/s^2");

    let dv = make(4.6483, "mi/h^2");
    assert_eq!(value_of(&dv), 0.0005772155644444445, "Incorrect conversion for mi/h^2");
    assert_eq!(exponents(&dv), [1, 0, -2, 0, 0, 0, 0], "Incorrect unit for mi/h^2");

    let dv = make(1.0, "m^2/s^-2");
    assert_eq!(exponents(&dv), [2, 0, 2, 0, 0, 0, 0], "Incorrect unit for m^2/s^-2");
}

#[test]
fn integration_tests_unit_str_to_unit_complex() {
    let dv = make(1.0, "BTU-in/h-ft^2-F");
    assert_eq!(value_of(&dv), 0.1442278885061242, "Incorrect conversion for BTU-in/h-ft^2-F");
    assert_eq!(exponents(&dv), [1, 1, -3, -1, 0, 0, 0], "Incorrect unit for BTU-in/h-ft^2-F");
}

#[test]
fn integration_tests_unit_conversion() {
    let d = make(1.0, "m");
    assert_eq!(f64::from_bits(d.value_in("cm").expect(FAIL_MSG)), 100.0);

    let d = make(1.0, "m/s");
    assert_eq!(f64::from_bits(d.value_in("mi/h").expect(FAIL_MSG)), 2.2369362920544025);
}

#[test]
fn integration_tests_bad_unit_conversion() {
    let d = make(1.0, "m");
    let result = d.value_in("h");
    assert!(result.is_err(), "Expected error on unknown unit conversion");

    let d = make(1.0, "m/s");
    let result = d.value_in("btu");
    assert!(result.is_err(), "Expected error on unknown unit conversion");
}

#[test]
fn integration_tests_errors_on_unknown_unit() {
    let result = Dv::new(1.0f64.to_bits(), "unknown_unit");
    assert!(result.is_err(), "Expected error on unknown unit");
}

#[test]
fn version_returns_semver_like_string() {
    let v = dv_rs::version();
    // Basic checks: not empty and contains at least one dot
    assert!(!v.trim().is_empty(), "version should not be empty");
    assert!(v.contains('.'), "version should contain a dot, got: {}", v);
}
