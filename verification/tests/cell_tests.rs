use smartsheet_rs::models::{Cell, CellValue, Hyperlink, Image, ModelError, Number, WireValue};

/// The `objectValue` of the original multi-picklist payload:
/// `{"objectType": "MULTI_PICKLIST", "values": ["hello", "world"]}`.
fn picklist_object_value() -> WireValue {
    WireValue::Obj(vec![
        ("objectType".to_string(), WireValue::Str("MULTI_PICKLIST".to_string())),
        (
            "values".to_string(),
            WireValue::Arr(vec![
                WireValue::Str("hello".to_string()),
                WireValue::Str("world".to_string()),
            ]),
        ),
    ])
}

#[test]
fn test_deserialize_and_get_values() {
    let mut cell = Cell::new(54321);
    cell.hyperlink = Some(Hyperlink::with_url("abc"));
    cell.value = Some(CellValue::from_text("My value"));
    cell.object_value = Some(picklist_object_value());

    let values = cell.values().unwrap();
    assert_eq!(values.len(), 2);
    assert!(matches!(values[0], WireValue::Str(ref s) if s == "hello"));
    assert!(matches!(values[1], WireValue::Str(ref s) if s == "world"));
}

#[test]
fn test_values_absent() {
    // No object value, or one without a values array, is an error —
    // not an empty list.
    let cell = Cell::new(1);
    assert_eq!(cell.values().unwrap_err(), ModelError::ValueTypeMismatch);
    let mut cell = Cell::new(1);
    cell.object_value = Some(WireValue::Num(Number::new(false, 12, -1)));
    assert_eq!(cell.values().unwrap_err(), ModelError::ValueTypeMismatch);
}

/// Expect the object field at `index`, returning its key and value.
fn field(w: &WireValue, index: usize) -> (&str, &WireValue) {
    match *w {
        WireValue::Obj(ref fields) => (fields[index].0.as_str(), &fields[index].1),
        ref other => panic!("not an object: {:?}", other),
    }
}

fn field_count(w: &WireValue) -> usize {
    match *w {
        WireValue::Obj(ref fields) => fields.len(),
        ref other => panic!("not an object: {:?}", other),
    }
}

#[test]
fn cell_test_serialize() {
    let mut c = Cell::new(0);
    c.override_validation = Some(false);
    c.strict = Some(false);

    let wire = c.into_write_value();
    assert_eq!(field_count(&wire), 3);
    let (key, value) = field(&wire, 0);
    assert_eq!(key, "columnId");
    assert!(matches!(*value, WireValue::Num(n) if n == Number::from_u64(0)));
    let (key, value) = field(&wire, 1);
    assert_eq!(key, "overrideValidation");
    assert!(matches!(*value, WireValue::Bool(false)));
    let (key, value) = field(&wire, 2);
    assert_eq!(key, "strict");
    assert!(matches!(*value, WireValue::Bool(false)));
}

#[test]
fn test_serialize_more_complex() {
    let mut c = Cell::new(54321);
    c.column_type = Some("Testing".to_string());
    c.conditional_format = Some("Conditional Format".to_string());
    c.hyperlink = Some(Hyperlink::with_url("abc"));
    c.value = Some(CellValue::from_text("My value"));
    c.display_value = Some("Something".to_string());
    c.object_value = Some(WireValue::Num(Number::new(false, 12, -1)));
    c.format = Some("My format".to_string());
    c.formula = Some("My formula".to_string());
    c.image = Some(Image {
        id: "My ID".to_string(),
        alt_text: "My Text".to_string(),
        height: 1,
        width: 3,
    });
    c.override_validation = Some(true);
    c.strict = Some(false);

    let wire = c.into_write_value();
    // Only columnId and the writable fields appear; columnType,
    // conditionalFormat, displayValue, format, formula and image are
    // response-only and never emitted on a write.
    assert_eq!(field_count(&wire), 6);
    let (key, value) = field(&wire, 0);
    assert_eq!(key, "columnId");
    assert!(matches!(*value, WireValue::Num(n) if n == Number::from_u64(54321)));
    let (key, link) = field(&wire, 1);
    assert_eq!(key, "hyperlink");
    assert_eq!(field_count(link), 1);
    let (key, url) = field(link, 0);
    assert_eq!(key, "url");
    assert!(matches!(*url, WireValue::Str(ref s) if s == "abc"));
    let (key, value) = field(&wire, 2);
    assert_eq!(key, "value");
    assert!(matches!(*value, WireValue::Str(ref s) if s == "My value"));
    let (key, value) = field(&wire, 3);
    assert_eq!(key, "objectValue");
    assert!(matches!(*value, WireValue::Num(n) if n == Number::new(false, 12, -1)));
    let (key, value) = field(&wire, 4);
    assert_eq!(key, "overrideValidation");
    assert!(matches!(*value, WireValue::Bool(true)));
    let (key, value) = field(&wire, 5);
    assert_eq!(key, "strict");
    assert!(matches!(*value, WireValue::Bool(false)));
}

#[test]
fn test_write_serialization_omits_response_only_fields() {
    // A freshly built cell with only a column id and a value serializes
    // to exactly {"columnId": 2, "value": 100.0} — no other key.
    let mut c = Cell::new(2);
    c.value = Some(CellValue::from_number(Number::new(false, 1000, -1)));
    let wire = c.into_write_value();
    assert_eq!(field_count(&wire), 2);
    let (key, value) = field(&wire, 0);
    assert_eq!(key, "columnId");
    assert!(matches!(*value, WireValue::Num(n) if n == Number::from_u64(2)));
    let (key, value) = field(&wire, 1);
    assert_eq!(key, "value");
    assert!(matches!(*value, WireValue::Num(n) if n == Number::from_u64(100)));
}

#[test]
fn test_cell_accessors() {
    let mut c = Cell::new(7);
    c.value = Some(CellValue::from_u64(90));
    c.display_value = Some("$90.00".to_string());
    c.hyperlink = Some(Hyperlink::with_url("https://example.com"));
    assert_eq!(c.value_as_u64().unwrap(), 90);
    assert!(c.value_as_str().is_err());
    assert_eq!(c.value_as_str_safe(), None);
    assert_eq!(*c.value_as_number().unwrap(), Number::from_u64(90));
    assert_eq!(c.display_value_as_str().unwrap(), "$90.00");
    assert_eq!(c.display_value_as_str_safe(), Some("$90.00"));
    assert_eq!(c.link_url().unwrap(), "https://example.com");
    assert_eq!(c.link_url_safe(), Some("https://example.com"));

    let empty = Cell::new(8);
    assert_eq!(empty.value_as_bool().unwrap_err(), ModelError::ValueTypeMismatch);
    assert_eq!(empty.display_value_as_str().unwrap_err(), ModelError::ValueTypeMismatch);
    assert!(empty.link_url().is_err());
    assert_eq!(empty.link_url_safe(), None);

    let strict = Cell::new(9).with_strict(true);
    assert_eq!(strict.strict, Some(true));
    assert_eq!(strict.column_id, 9);
}
