use smartsheet_rs::models::{CellValue, ModelError, Number, WireValue};

#[test]
fn test_number_normalizes_trailing_zeros() {
    // 90 and 90.0 meet in one canonical form.
    let ninety = Number::from_u64(90);
    let ninety_point_zero = Number::new(false, 900, -1);
    assert_eq!(ninety, ninety_point_zero);

    // 123.45 keeps its fractional digits.
    let frac = Number::new(false, 12345, -2);
    assert_eq!(frac, Number::new(false, 123450, -3));
    assert!(frac != Number::from_u64(12345));
}

#[test]
fn test_number_as_u64() {
    assert_eq!(Number::from_u64(0).as_u64(), Some(0));
    assert_eq!(Number::from_u64(90).as_u64(), Some(90));
    assert_eq!(Number::from_u64(u64::MAX).as_u64(), Some(u64::MAX));
    // Fractional and negative numbers do not read back as u64.
    assert_eq!(Number::new(false, 12345, -2).as_u64(), None);
    assert_eq!(Number::from_i64(-5).as_u64(), None);
    // Too large: 10^20 overflows a u64.
    assert_eq!(Number::new(false, 1, 20).as_u64(), None);
}

#[test]
fn test_from_i64_keeps_sign_and_magnitude() {
    let v = CellValue::from_i64(-90);
    match v.as_number() {
        Ok(n) => assert_eq!(*n, Number::new(true, 90, 0)),
        Err(e) => panic!("not numeric: {:?}", e),
    }
    assert!(CellValue::from_i64(90) == CellValue::from_u64(90));
    assert!(CellValue::from_i64(-90) != CellValue::from_u64(90));
    let min = CellValue::from_i64(i64::MIN);
    assert!(min == CellValue::from_number(Number::new(true, 9223372036854775808, 0)));
}

#[test]
fn test_from_digits_parses_exactly() {
    // 123.45 from its rendered parts.
    assert_eq!(
        Number::from_digits(false, b"123", b"45", 0),
        Some(Number::new(false, 12345, -2))
    );
    // A plain integer, and the canonical zero even when marked negative.
    assert_eq!(Number::from_digits(false, b"90", b"", 0), Some(Number::from_u64(90)));
    assert_eq!(Number::from_digits(true, b"0", b"", 0), Some(Number::from_u64(0)));
    // A literal with an exponent: 1.5e3 is 1500.
    assert_eq!(Number::from_digits(false, b"1", b"5", 3), Some(Number::from_u64(1500)));
    // The largest u64 still parses; one more does not fit unscaled.
    assert_eq!(
        Number::from_digits(false, b"18446744073709551615", b"", 0),
        Some(Number::from_u64(u64::MAX))
    );
    assert_eq!(Number::from_digits(false, b"18446744073709551616", b"", 0), None);
    // No digits at all, or a non-digit byte, is rejected.
    assert_eq!(Number::from_digits(false, b"", b"", 0), None);
    assert_eq!(Number::from_digits(false, b"12x", b"", 0), None);
    // An exponent without normalization headroom is rejected.
    assert_eq!(Number::from_digits(false, b"1", b"", i32::MAX - 10), None);
}

fn round_trips(value: CellValue) {
    let wire = value.encode();
    let back = CellValue::decode(&wire).unwrap();
    assert!(back == value);
}

#[test]
fn test_round_trip_representative_values() {
    round_trips(CellValue::from_text("hello"));
    round_trips(CellValue::from_bool(true));
    round_trips(CellValue::from_number(Number::new(false, 12345, -2)));
    round_trips(CellValue::from_u64(0));
}

#[test]
fn test_untagged_decode_inference() {
    // A wire string decodes to Text.
    let decoded = CellValue::decode(&WireValue::Str("abc".to_string())).unwrap();
    assert!(matches!(decoded, CellValue::Text(ref s) if s == "abc"));

    // A wire boolean decodes to Boolean.
    let decoded = CellValue::decode(&WireValue::Bool(true)).unwrap();
    assert!(matches!(decoded, CellValue::Boolean(true)));

    // The integer and the fractional wire number both decode to Numeric.
    let decoded = CellValue::decode(&WireValue::Num(Number::from_u64(42))).unwrap();
    assert!(matches!(decoded, CellValue::Numeric(_)));
    let decoded = CellValue::decode(&WireValue::Num(Number::new(false, 425, -1))).unwrap();
    assert!(matches!(decoded, CellValue::Numeric(_)));

    // An array, an object, and a null are decode errors.
    let arr = WireValue::Arr(vec![WireValue::Bool(true)]);
    assert_eq!(CellValue::decode(&arr).unwrap_err(), ModelError::InvalidWireValue);
    let obj = WireValue::Obj(vec![("a".to_string(), WireValue::Bool(true))]);
    assert_eq!(CellValue::decode(&obj).unwrap_err(), ModelError::InvalidWireValue);
    assert_eq!(CellValue::decode(&WireValue::Null).unwrap_err(), ModelError::InvalidWireValue);
}

#[test]
fn test_encode_emits_bare_primitives() {
    assert!(matches!(CellValue::from_text("x").encode(), WireValue::Str(ref s) if s == "x"));
    assert!(matches!(CellValue::from_bool(false).encode(), WireValue::Bool(false)));
    assert!(
        matches!(CellValue::from_u64(7).encode(), WireValue::Num(n) if n == Number::from_u64(7))
    );
}

#[test]
fn test_typed_accessors() {
    let text = CellValue::from_text("hi");
    assert_eq!(text.as_str().unwrap(), "hi");
    assert_eq!(text.as_str_safe(), Some("hi"));
    assert_eq!(text.as_bool().unwrap_err(), ModelError::ValueTypeMismatch);
    assert_eq!(text.as_u64().unwrap_err(), ModelError::ValueTypeMismatch);

    let flag = CellValue::from_bool(true);
    assert_eq!(flag.as_bool().unwrap(), true);
    assert!(flag.as_str().is_err());
    assert_eq!(flag.as_str_safe(), None);

    let number = CellValue::from_u64(90);
    assert_eq!(*number.as_number().unwrap(), Number::from_u64(90));
    assert_eq!(number.as_u64().unwrap(), 90);
    assert!(number.as_str().is_err());

    // A fractional number has no u64 reading.
    let frac = CellValue::from_number(Number::new(false, 905, -1));
    assert_eq!(frac.as_u64().unwrap_err(), ModelError::ValueTypeMismatch);
}

#[test]
fn test_from_char_builds_one_character_text() {
    let v = CellValue::from_char('x');
    assert_eq!(v.as_str().unwrap(), "x");
    assert!(v == CellValue::from_text("x"));
}

#[test]
fn test_structural_equality_across_variants() {
    let text = CellValue::from_text("1");
    let number = CellValue::from_u64(1);
    let flag = CellValue::from_bool(true);
    assert!(text != number);
    assert!(number != flag);
    assert!(flag != text);
    // Numeric equality ignores how the wire spelled the number.
    assert!(CellValue::from_u64(90) == CellValue::from_number(Number::new(false, 900, -1)));
}

#[test]
fn test_error_messages_name_the_identifier() {
    let e = ModelError::ColumnNotFound { title: "Score".to_string() };
    assert_eq!(e.message(), "The column name `Score` does not exist in the sheet");
    let e = ModelError::CellAbsent { column_id: 42 };
    assert_eq!(e.message(), "No cell found for the column with id `42`");
    assert_eq!(ModelError::NoMatch.message(), "No matching row for the condition");
}
