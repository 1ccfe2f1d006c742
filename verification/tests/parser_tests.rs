use dv_rs::parse::read_unit_power;
use dv_rs::parse::unit_str_to_base_unit;
use dv_rs::ParseError;

#[test]
fn read_unit_power_basic_cases() {
    assert_eq!(read_unit_power(b"m").unwrap(), (b"m".to_vec(), 1));
    assert_eq!(read_unit_power(b"m3").unwrap(), (b"m".to_vec(), 3));
    assert_eq!(read_unit_power(b"m^3").unwrap(), (b"m".to_vec(), 3));
    assert_eq!(read_unit_power(b"m^-2").unwrap(), (b"m".to_vec(), -2));
    assert_eq!(read_unit_power(b"m-2").unwrap(), (b"m".to_vec(), -2));
    assert_eq!(read_unit_power(b"  kg^2 ").unwrap(), (b"kg".to_vec(), 2));
    // We don't check for known units here
    assert_eq!(read_unit_power(b"undef").unwrap(), (b"undef".to_vec(), 1));
}

#[test]
fn read_unit_power_errors() {
    assert!(read_unit_power(b"").is_err());
    let err = read_unit_power(b"m^").unwrap_err();
    assert!(err.message().contains("Missing exponent"));
    let err = read_unit_power(b"^2").unwrap_err();
    assert!(err.message().contains("Missing unit symbol"));
}

#[test]
fn parse_empty_string_is_unitless_factor_one() {
    let (dim, factor) = unit_str_to_base_unit("").unwrap();
    assert_eq!(dim.halves, [0i128; 7]);
    assert_eq!(f64::from_bits(factor), 1.0);
}

#[test]
fn parse_strips_brackets() {
    let (dim, factor) = unit_str_to_base_unit("(kg-m)/[s^2]").unwrap();
    assert_eq!(dim.halves, [2, 2, -4, 0, 0, 0, 0]);
    assert_eq!(f64::from_bits(factor), 1.0);
}

#[test]
fn parse_multiple_slashes_error() {
    let err = unit_str_to_base_unit("m/s/s").unwrap_err();
    assert!(matches!(err, ParseError::MultipleSlashes));
    assert_eq!(err.message(), "Unit string can only have one '/'");
}

#[test]
fn parse_empty_token_error() {
    let err = unit_str_to_base_unit(" - ").unwrap_err();
    assert!(matches!(err, ParseError::EmptyToken));
    assert_eq!(err.message(), "Empty unit token");
}

#[test]
fn parse_missing_exponent_error() {
    let err = unit_str_to_base_unit("m^").unwrap_err();
    assert!(matches!(err, ParseError::MissingExponent(_)));
    assert!(err.message().contains("Missing exponent after '^' in \"m^\""));
}

#[test]
fn parse_missing_symbol_error() {
    let err = unit_str_to_base_unit("^2").unwrap_err();
    assert!(matches!(err, ParseError::MissingSymbol(_)));
    assert!(err.message().contains("Missing unit symbol before exponent in \"^2\""));
}

#[test]
fn parse_invalid_exponent_error() {
    // An exponent beyond the 32-bit range is unreadable.
    let err = unit_str_to_base_unit("m^99999999999").unwrap_err();
    assert!(matches!(err, ParseError::InvalidExponent(_)));
    assert!(err.message().contains("Unable to read numeric power"));
}

#[test]
fn parse_unknown_unit_error() {
    let err = unit_str_to_base_unit("bogus").unwrap_err();
    assert!(matches!(err, ParseError::UnknownUnit(_)));
    assert_eq!(err.message(), "Unknown unit: bogus");
}

#[test]
fn parse_term_order_is_irrelevant() {
    // Terms of one side commute: same vector and same factor.
    let (d1, f1) = unit_str_to_base_unit("N-m").unwrap();
    let (d2, f2) = unit_str_to_base_unit("m-N").unwrap();
    assert_eq!(d1.halves, d2.halves);
    assert_eq!(f1, f2);

    let (d3, f3) = unit_str_to_base_unit("BTU-in/hr-ft^2-F").unwrap();
    let (d4, f4) = unit_str_to_base_unit("in-BTU/hr-ft^2-F").unwrap();
    assert_eq!(d3.halves, d4.halves);
    assert_eq!(f3, f4);
}

#[test]
fn parse_denominator_only() {
    // An empty numerator is allowed; a bare "1" is not a unit symbol.
    let (dim, factor) = unit_str_to_base_unit("/s").unwrap();
    assert_eq!(dim.halves, [0, 0, -2, 0, 0, 0, 0]);
    assert_eq!(f64::from_bits(factor), 1.0);
    assert!(matches!(
        unit_str_to_base_unit("1/s").unwrap_err(),
        ParseError::MissingSymbol(_)
    ));
}
