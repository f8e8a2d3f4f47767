use spectest_gen::value::{Value, is_nan, push_literal, type_of};
use spectest_gen::text::{push_i64_dec, push_u64_dec};

fn literal(v: &Value) -> String {
    let mut s = String::new();
    push_literal(&mut s, v);
    s
}

#[test]
fn type_tokens() {
    assert_eq!(type_of(&Value::Int32(0)), "i32");
    assert_eq!(type_of(&Value::Int64(0)), "i64");
    assert_eq!(type_of(&Value::Float32(0)), "f32");
    assert_eq!(type_of(&Value::Float64(0)), "f64");
}

#[test]
fn integer_literals() {
    assert_eq!(literal(&Value::Int32(42)), "42 as i32");
    assert_eq!(literal(&Value::Int32(-5)), "-5 as i32");
    assert_eq!(literal(&Value::Int32(i32::MIN)), "-2147483648 as i32");
    assert_eq!(literal(&Value::Int64(0)), "0 as i64");
    assert_eq!(
        literal(&Value::Int64(i64::MIN)),
        "-9223372036854775808 as i64"
    );
    assert_eq!(
        literal(&Value::Int64(i64::MAX)),
        "9223372036854775807 as i64"
    );
}

#[test]
fn decimal_rendering() {
    let mut s = String::new();
    push_u64_dec(&mut s, 0);
    push_u64_dec(&mut s, 1000);
    push_u64_dec(&mut s, u64::MAX);
    assert_eq!(s, "0100018446744073709551615");
    let mut t = String::new();
    push_i64_dec(&mut t, -1);
    push_i64_dec(&mut t, 7);
    assert_eq!(t, "-17");
}

#[test]
fn infinity_literals() {
    assert_eq!(
        literal(&Value::Float32(f32::INFINITY.to_bits())),
        "f32::INFINITY"
    );
    assert_eq!(
        literal(&Value::Float32(f32::NEG_INFINITY.to_bits())),
        "f32::NEG_INFINITY"
    );
    assert_eq!(
        literal(&Value::Float64(f64::INFINITY.to_bits())),
        "f64::INFINITY"
    );
    assert_eq!(
        literal(&Value::Float64(f64::NEG_INFINITY.to_bits())),
        "f64::NEG_INFINITY"
    );
}

#[test]
fn nan_literal_reproduces_exact_bits_f32() {
    let bits: u32 = 0x7fc00001;
    assert_eq!(literal(&Value::Float32(bits)), "f32::from_bits(2143289345)");
    // The emitted expression, evaluated, yields exactly the original bits.
    assert_eq!(f32::from_bits(2143289345).to_bits(), bits);
    assert!(f32::from_bits(2143289345).is_nan());
}

#[test]
fn nan_literal_reproduces_exact_bits_f64() {
    let bits: u64 = 0xfff8000000000001;
    assert_eq!(
        literal(&Value::Float64(bits)),
        "f64::from_bits(18444492273895866369)"
    );
    assert_eq!(f64::from_bits(18444492273895866369).to_bits(), bits);
    assert!(f64::from_bits(18444492273895866369).is_nan());
}

#[test]
fn finite_float_literal_is_bit_exact() {
    let half: u32 = 0.5f32.to_bits();
    assert_eq!(
        literal(&Value::Float32(half)),
        format!("f32::from_bits({})", half)
    );
    let third: u64 = (1.0f64 / 3.0f64).to_bits();
    assert_eq!(
        literal(&Value::Float64(third)),
        format!("f64::from_bits({})", third)
    );
}

#[test]
fn nan_detection_goes_by_bits() {
    assert!(is_nan(&Value::Float32(0x7fc00000)));
    assert!(is_nan(&Value::Float32(0xffc00001)));
    assert!(!is_nan(&Value::Float32(f32::INFINITY.to_bits())));
    assert!(!is_nan(&Value::Float32(0)));
    assert!(is_nan(&Value::Float64(0x7ff8000000000000)));
    assert!(is_nan(&Value::Float64(0xfff8000000000001)));
    assert!(!is_nan(&Value::Float64(f64::NEG_INFINITY.to_bits())));
    assert!(!is_nan(&Value::Int32(-1)));
    assert!(!is_nan(&Value::Int64(7)));
}
