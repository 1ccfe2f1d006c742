use dv_rs::DimensionalVariable as Dv;
use std::f64::consts::PI;

const FAIL_MSG: &str = "Failed to create DimensionalVariable";

fn mk(value: f64, unit: &str) -> Dv {
    Dv::new(value.to_bits(), unit).expect(FAIL_MSG)
}

fn num(v: &Dv) -> f64 {
    f64::from_bits(v.value())
}

fn vec_of(v: &Dv) -> [f64; 7] {
    let h = v.unit().halves;
    [
        h[0] as f64 / 2.0,
        h[1] as f64 / 2.0,
        h[2] as f64 / 2.0,
        h[3] as f64 / 2.0,
        h[4] as f64 / 2.0,
        h[5] as f64 / 2.0,
        h[6] as f64 / 2.0,
    ]
}

#[test]
fn add_sub_with_same_units() {
    let a = mk(3.5, "m");
    let b = mk(1.5, "m");

    let c = a.try_add(&b).expect(FAIL_MSG);
    assert_eq!(num(&c), 5.0);
    assert_eq!(vec_of(&c), [1.0, 0.0, 0.0, 0.0, 0.0, 0.0, 0.0]);

    let d = a.try_sub(&b).expect(FAIL_MSG);
    assert_eq!(num(&d), 2.0);
    assert_eq!(vec_of(&d), [1.0, 0.0, 0.0, 0.0, 0.0, 0.0, 0.0]);

    let e = a.try_add(&b).expect(FAIL_MSG);
    assert_eq!(num(&e), 5.0);
    assert_eq!(vec_of(&e), [1.0, 0.0, 0.0, 0.0, 0.0, 0.0, 0.0]);
}

#[test]
fn try_add_sub_incompatible_units() {
    let m = mk(1.0, "m");
    let s = mk(1.0, "s");

    assert!(m.try_add(&s).is_err());
    assert!(m.try_sub(&s).is_err());
}

#[test]
fn mul_div_unit_exponents() {
    // (m/s) * s = m
    let v = mk(3.0, "m/s");
    let t = mk(2.0, "s");
    let d = v.mul(&t);
    assert_eq!(num(&d), 6.0);
    assert_eq!(vec_of(&d), [1.0, 0.0, 0.0, 0.0, 0.0, 0.0, 0.0]);

    // N * m = J (exponents [2, 1, -2])
    let f = mk(5.0, "N");
    let x = mk(2.0, "m");
    let w = f.mul(&x);
    assert_eq!(num(&w), 10.0);
    assert_eq!(vec_of(&w), [2.0, 1.0, -2.0, 0.0, 0.0, 0.0, 0.0]);

    // (m^2/s) / m = m/s
    let a = mk(8.0, "m^2/s");
    let m1 = mk(2.0, "m");
    let r = a.div(&m1);
    assert_eq!(num(&r), 4.0);
    assert_eq!(vec_of(&r), [1.0, 0.0, -1.0, 0.0, 0.0, 0.0, 0.0]);
}

#[test]
fn scalar_ops() {
    let m = mk(5.0, "m");

    let a = m.mul_scalar(2.0f64.to_bits());
    assert_eq!(num(&a), 10.0);
    assert_eq!(vec_of(&a), [1.0, 0.0, 0.0, 0.0, 0.0, 0.0, 0.0]);

    let b = m.mul_scalar(2.0f64.to_bits());
    assert_eq!(num(&b), 10.0);
    assert_eq!(vec_of(&b), [1.0, 0.0, 0.0, 0.0, 0.0, 0.0, 0.0]);

    let c = m.div_scalar(2.0f64.to_bits());
    assert_eq!(num(&c), 2.5);
    assert_eq!(vec_of(&c), [1.0, 0.0, 0.0, 0.0, 0.0, 0.0, 0.0]);

    // 2 / (2 1/s) = 1 s
    let inv = mk(2.0, "s^-1");
    let d = inv.rdiv_scalar(2.0f64.to_bits());
    assert_eq!(num(&d), 1.0);
    assert_eq!(vec_of(&d), [0.0, 0.0, 1.0, 0.0, 0.0, 0.0, 0.0]);
}

#[test]
fn assignment_ops() {
    let mut a = mk(3.0, "m");
    let b = mk(2.0, "m");

    a = a.try_add(&b).expect(FAIL_MSG); // 5 m
    assert_eq!(num(&a), 5.0);
    assert_eq!(vec_of(&a), [1.0, 0.0, 0.0, 0.0, 0.0, 0.0, 0.0]);

    a = a.try_sub(&b).expect(FAIL_MSG); // 3 m
    assert_eq!(num(&a), 3.0);
    assert_eq!(vec_of(&a), [1.0, 0.0, 0.0, 0.0, 0.0, 0.0, 0.0]);

    let s_inv = mk(2.0, "s^-1");
    a = a.mul(&s_inv); // 6 m/s
    assert_eq!(num(&a), 6.0);
    assert_eq!(vec_of(&a), [1.0, 0.0, -1.0, 0.0, 0.0, 0.0, 0.0]);

    let s_inv2 = mk(3.0, "s^-1");
    a = a.div(&s_inv2); // 2 m
    assert_eq!(num(&a), 2.0);
    assert_eq!(vec_of(&a), [1.0, 0.0, 0.0, 0.0, 0.0, 0.0, 0.0]);
}

#[test]
fn negation_and_unitless() {
    let m = mk(5.0, "m");
    let n = m.neg();
    assert_eq!(num(&n), -5.0);
    assert_eq!(vec_of(&n), [1.0, 0.0, 0.0, 0.0, 0.0, 0.0, 0.0]);

    // Ratio of same units is unitless
    let a = mk(10.0, "m");
    let b = mk(2.0, "m");
    let r = a.div(&b);
    assert!(r.is_unitless());
    assert_eq!(num(&r), 5.0);
}

#[test]
fn mixed_owned_and_borrowed_forms() {
    let a = mk(2.0, "m");
    let b = mk(3.0, "m");

    let r1 = a.try_add(&b).expect(FAIL_MSG);
    let r2 = a.try_add(&b).expect(FAIL_MSG);
    let a2 = mk(2.0, "m");
    let b2 = mk(3.0, "m");
    let r3 = a2.try_add(&b2).expect(FAIL_MSG);

    assert_eq!(num(&r1), 5.0);
    assert_eq!(num(&r2), 5.0);
    assert_eq!(num(&r3), 5.0);
    assert_eq!(vec_of(&r1), [1.0, 0.0, 0.0, 0.0, 0.0, 0.0, 0.0]);
}

#[test]
fn complex_arithmetic() {
    // This test checks the arithmetic operations using the conduction equation

    let k = mk(4.0, "BTU-in/hr-ft^2-F");
    let l = mk(5.0, "mm");
    let a = mk(10.0, "cm^2");
    let dt = mk(200.0, "K");

    let q = k.mul(&a).mul(&dt).div(&l);

    assert_eq!(num(&q), 23.076462160979872, "Incorrect value for q!");
    assert_eq!(vec_of(&q), [2.0, 1.0, -3.0, 0.0, 0.0, 0.0, 0.0], "Expected unit to be Watts!");
}

#[test]
fn mixed_owned_and_borrowed_forms_sub_mul_div() {
    // Subtraction
    let a = mk(5.0, "m");
    let b = mk(3.0, "m");
    let s1 = a.try_sub(&b).expect(FAIL_MSG);
    assert_eq!(num(&s1), 2.0);
    assert_eq!(vec_of(&s1), [1.0, 0.0, 0.0, 0.0, 0.0, 0.0, 0.0]);

    let s2 = a.try_sub(&b).expect(FAIL_MSG);
    assert_eq!(num(&s2), 2.0);
    assert_eq!(vec_of(&s2), [1.0, 0.0, 0.0, 0.0, 0.0, 0.0, 0.0]);

    let a2 = mk(5.0, "m");
    let b2 = mk(3.0, "m");
    let s3 = a2.try_sub(&b2).expect(FAIL_MSG);
    assert_eq!(num(&s3), 2.0);
    assert_eq!(vec_of(&s3), [1.0, 0.0, 0.0, 0.0, 0.0, 0.0, 0.0]);

    // Multiplication
    let m1 = mk(2.0, "m");
    let s = mk(4.0, "s");
    let p1 = m1.mul(&s);
    assert_eq!(num(&p1), 8.0);
    assert_eq!(vec_of(&p1), [1.0, 0.0, 1.0, 0.0, 0.0, 0.0, 0.0]);

    let m2 = mk(2.0, "m");
    let p2 = m2.mul(&mk(4.0, "s"));
    assert_eq!(num(&p2), 8.0);
    assert_eq!(vec_of(&p2), [1.0, 0.0, 1.0, 0.0, 0.0, 0.0, 0.0]);

    let m3 = mk(2.0, "m");
    let s2 = mk(4.0, "s");
    let p3 = m3.mul(&s2);
    assert_eq!(num(&p3), 8.0);
    assert_eq!(vec_of(&p3), [1.0, 0.0, 1.0, 0.0, 0.0, 0.0, 0.0]);

    // Division
    let num1 = mk(8.0, "m^2-s");
    let den1 = mk(2.0, "s");
    let d1 = num1.div(&den1);
    assert_eq!(num(&d1), 4.0);
    assert_eq!(vec_of(&d1), [2.0, 0.0, 0.0, 0.0, 0.0, 0.0, 0.0]);

    let num2 = mk(8.0, "m^2-s");
    let den2 = mk(2.0, "s");
    let d2 = num2.div(&den2);
    assert_eq!(num(&d2), 4.0);
    assert_eq!(vec_of(&d2), [2.0, 0.0, 0.0, 0.0, 0.0, 0.0, 0.0]);

    let num3 = mk(8.0, "m^2-s");
    let den3 = mk(2.0, "s");
    let d3 = num3.div(&den3);
    assert_eq!(num(&d3), 4.0);
    assert_eq!(vec_of(&d3), [2.0, 0.0, 0.0, 0.0, 0.0, 0.0, 0.0]);
}

#[test]
fn scalar_owned_variants_and_assign() {
    let m = mk(3.0, "m");
    let r1 = m.mul_scalar(2.0f64.to_bits());
    assert_eq!(num(&r1), 6.0);
    assert_eq!(vec_of(&r1), [1.0, 0.0, 0.0, 0.0, 0.0, 0.0, 0.0]);

    let m2 = mk(3.0, "m");
    let r2 = m2.div_scalar(2.0f64.to_bits());
    assert_eq!(num(&r2), 1.5);
    assert_eq!(vec_of(&r2), [1.0, 0.0, 0.0, 0.0, 0.0, 0.0, 0.0]);

    let m3 = mk(3.0, "m");
    let r3 = m3.mul_scalar(2.0f64.to_bits());
    assert_eq!(num(&r3), 6.0);
    assert_eq!(vec_of(&r3), [1.0, 0.0, 0.0, 0.0, 0.0, 0.0, 0.0]);

    // f64 / owned (inverse units)
    let inv = mk(2.0, "s^-1");
    let r4 = inv.rdiv_scalar(2.0f64.to_bits());
    assert_eq!(num(&r4), 1.0);
    assert_eq!(vec_of(&r4), [0.0, 0.0, 1.0, 0.0, 0.0, 0.0, 0.0]);

    // Compound assignments with a scalar
    let mut kg = mk(5.0, "kg");
    kg = kg.mul_scalar(2.0f64.to_bits());
    assert_eq!(num(&kg), 10.0);
    assert_eq!(vec_of(&kg), [0.0, 1.0, 0.0, 0.0, 0.0, 0.0, 0.0]);

    kg = kg.div_scalar(4.0f64.to_bits());
    assert_eq!(num(&kg), 2.5);
    assert_eq!(vec_of(&kg), [0.0, 1.0, 0.0, 0.0, 0.0, 0.0, 0.0]);
}

#[test]
fn assignment_ops_owned_rhs() {
    let mut a = mk(3.0, "m");
    let b = mk(2.0, "m");

    a = a.try_add(&b).expect(FAIL_MSG);
    assert_eq!(num(&a), 5.0);
    assert_eq!(vec_of(&a), [1.0, 0.0, 0.0, 0.0, 0.0, 0.0, 0.0]);

    let s_inv = mk(2.0, "s^-1");
    a = a.mul(&s_inv); // 10 m/s
    assert_eq!(num(&a), 10.0);
    assert_eq!(vec_of(&a), [1.0, 0.0, -1.0, 0.0, 0.0, 0.0, 0.0]);

    let s_inv2 = mk(2.0, "s^-1");
    a = a.div(&s_inv2); // back to 5 m
    assert_eq!(num(&a), 5.0);
    assert_eq!(vec_of(&a), [1.0, 0.0, 0.0, 0.0, 0.0, 0.0, 0.0]);

    let one_m = mk(1.0, "m");
    a = a.try_sub(&one_m).expect(FAIL_MSG); // 4 m
    assert_eq!(num(&a), 4.0);
    assert_eq!(vec_of(&a), [1.0, 0.0, 0.0, 0.0, 0.0, 0.0, 0.0]);
}

#[test]
fn negation_owned() {
    let m = mk(5.0, "m");
    let n = m.neg();
    assert_eq!(num(&n), -5.0);
    assert_eq!(vec_of(&n), [1.0, 0.0, 0.0, 0.0, 0.0, 0.0, 0.0]);
}

#[test]
fn comparisons_equality_and_ordering() {
    // Equality with same units
    let a1 = mk(2.0, "m");
    let a2 = mk(2.0, "m");
    assert!(a1 == a2);

    // Ordering with same units
    let b1 = mk(2.0, "m");
    let b2 = mk(3.0, "m");
    assert!(b1 < b2);
    assert!(b2 > b1);
    assert!(b2 >= b1);
    assert!(b1 <= b2);

    // Mismatched units: not equal and no ordering
    let c1 = mk(1.0, "m");
    let c2 = mk(1.0, "s");
    assert!(c1 != c2);
    assert!(c1.partial_cmp(&c2).is_none());
    assert!(!(c1 < c2));
    assert!(!(c1 > c2));
    assert!(!(c1 <= c2));
    assert!(!(c1 >= c2));
}

#[test]
fn powi_and_sqrt() {
    // powi on dimensional values multiplies exponents
    let a = mk(2.0, "m/s^2");
    let p = a.powi(3);
    assert!((num(&p) - 8.0).abs() < 1e-12);
    assert_eq!(vec_of(&p), [3.0, 0.0, -6.0, 0.0, 0.0, 0.0, 0.0]);

    // sqrt of even exponents works
    let b = mk(9.0, "m^2/s^2");
    let unit = b.sqrt_unit().expect(FAIL_MSG);
    let r = f64::from_bits(b.value()).sqrt();
    assert!((r - 3.0).abs() < 1e-12);
    assert_eq!(unit.halves, [2, 0, -2, 0, 0, 0, 0]);

    // sqrt allows fractional exponents
    let c = mk(4.0, "m^3");
    let sunit = c.sqrt_unit().expect(FAIL_MSG);
    let sr = f64::from_bits(c.value()).sqrt();
    assert!((sr - 2.0).abs() < 1e-12);
    assert_eq!(sunit.halves, [3, 0, 0, 0, 0, 0, 0]); // m^1.5

    // sqrt error: negative value
    let d = mk(-1.0, "m^2");
    assert!(d.sqrt_unit().is_err());
}

#[test]
fn powf_logs_trig_require_unitless() {
    // Construct a unitless value via ratio
    let x = mk(10.0, "m");
    let y = mk(2.0, "m");
    let u = x.div(&y); // value = 5, unitless
    assert!(u.is_unitless());

    // powf on the unitless ratio
    assert!(u.powf_domain().is_ok());
    let p = f64::from_bits(u.value()).powf(2.5);
    assert!((p - 5f64.powf(2.5)).abs() < 1e-12);

    // logs on unitless positive
    assert!(u.ln_domain().is_ok());
    assert!((f64::from_bits(u.value()).ln() - 5f64.ln()).abs() < 1e-12);
    assert!(u.log2_domain().is_ok());
    assert!((f64::from_bits(u.value()).log2() - 5f64.log2()).abs() < 1e-12);
    assert!(u.log10_domain().is_ok());
    assert!((f64::from_bits(u.value()).log10() - 5f64.log10()).abs() < 1e-12);

    // trig on unitless
    let angle = mk(PI / 4.0, "rad"); // rad is dimensionless in our base
    assert!(angle.is_unitless());
    assert!(angle.sin_domain().is_ok());
    assert!((f64::from_bits(angle.value()).sin() - (PI / 4.0).sin()).abs() < 1e-12);
    assert!(angle.cos_domain().is_ok());
    assert!((f64::from_bits(angle.value()).cos() - (PI / 4.0).cos()).abs() < 1e-12);
    assert!(angle.tan_domain().is_ok());
    assert!((f64::from_bits(angle.value()).tan() - (PI / 4.0).tan()).abs() < 1e-12);

    // Errors for dimensional logs/trig
    let m = mk(2.0, "m");
    assert!(m.ln_domain().is_err());
    assert!(m.log2_domain().is_err());
    assert!(m.log10_domain().is_err());
    assert!(m.sin_domain().is_err());
    assert!(m.cos_domain().is_err());
    assert!(m.tan_domain().is_err());
    assert!(m.powf_domain().is_err());

    // Log domain errors
    let zero = mk(0.0, ""); // unitless zero
    assert!(zero.ln_domain().is_err());
    assert!(zero.log2_domain().is_err());
    assert!(zero.log10_domain().is_err());
}

#[test]
fn comparisons() {
    // Same physical dimension but provided in different units are equal after conversion
    let a = mk(1.0, "m");
    let b = mk(100.0, "cm");
    assert!(a == b);
    assert!(!(a != b));
    assert!(!(a < b));
    assert!(a <= b);
    assert!(!(a > b));
    assert!(a >= b);

    // Different units (incompatible dimensions) -> comparisons are None/false
    let m = mk(1.0, "m");
    let s = mk(1.0, "s");
    assert!(!(m < s));
    assert!(!(m <= s));
    assert!(!(m > s));
    assert!(!(m >= s));
    assert!(!(m == s));
    assert!(m != s);
    assert!(PartialOrd::partial_cmp(&m, &s).is_none());

    // Ordering within same units
    let c = mk(2.0, "m");
    let d = mk(3.0, "m");
    assert!(c < d);
    assert!(d > c);
}

#[test]
fn absolute_value() {
    let m = mk(-5.0, "m");
    let a = m.abs();
    assert_eq!(num(&a), 5.0);
    assert_eq!(vec_of(&a), [1.0, 0.0, 0.0, 0.0, 0.0, 0.0, 0.0]);
}
