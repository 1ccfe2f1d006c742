use dv_rs::DimensionalVariable as Dv;
use dv_rs::render::unit_string;

const FAIL_MSG: &str = "Failed to create DimensionalVariable";

fn shown(value: f64, unit: &str) -> String {
    let dv = Dv::new(value.to_bits(), unit).expect(FAIL_MSG);
    format!("{} {}", f64::from_bits(dv.value()), unit_string(&dv.unit()))
}

#[test]
fn to_string_simple_unit() {
    assert_eq!(shown(5.0, "m"), "5 m");
    assert_eq!(shown(10.0, "kg"), "10 kg");
    assert_eq!(shown(3.5, "s"), "3.5 s");
}

#[test]
fn to_string_unitless() {
    assert_eq!(shown(42.0, ""), "42 (unitless)");
}

#[test]
fn to_string_with_exponents() {
    assert_eq!(shown(100.0, "m^2"), "100 m^2");
    assert_eq!(shown(8.0, "m^3"), "8 m^3");
}

#[test]
fn to_string_with_denominator() {
    assert_eq!(shown(10.0, "m/s"), "10 m/s");
    assert_eq!(shown(9.81, "m/s^2"), "9.81 m/s^2");
}

#[test]
fn to_string_complex_units() {
    // Force: kg*m/s^2
    assert_eq!(shown(1.0, "N"), "1 m*kg/s^2");

    // Energy: kg*m^2/s^2
    assert_eq!(shown(100.0, "J"), "100 m^2*kg/s^2");

    // Power: kg*m^2/s^3
    assert_eq!(shown(50.0, "W"), "50 m^2*kg/s^3");
}

#[test]
fn to_string_only_denominator() {
    // Create a frequency (1/s) by dividing unitless by time
    let one = Dv::new(60.0f64.to_bits(), "").expect(FAIL_MSG);
    let time = Dv::new(1.0f64.to_bits(), "s").expect(FAIL_MSG);
    let frequency = one.div(&time);
    assert_eq!(
        format!("{} {}", f64::from_bits(frequency.value()), unit_string(&frequency.unit())),
        "60 1/s"
    );

    // Also test via negative exponent
    assert_eq!(shown(100.0, "s^-1"), "100 1/s");
}

#[test]
fn to_string_format_macro() {
    let formatted = format!("The velocity is {}", shown(2.5, "m/s"));
    assert_eq!(formatted, "The velocity is 2.5 m/s");
}

#[test]
fn to_string_half_integer_exponent() {
    // The square root of a volume renders with a fractional exponent.
    let volume = Dv::new(8.0f64.to_bits(), "m^3").expect(FAIL_MSG);
    let unit = volume.sqrt_unit().expect(FAIL_MSG);
    assert_eq!(unit_string(&unit), "m^1.5");
}
