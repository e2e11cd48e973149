use smartsheet_rs::models::{
    CellValue, Column, Contact, Decision, EnumStr, LightPicker, ModelError, WireValue,
};
use smartsheet_rs::{CellBuilder, ColumnMapper};

fn column(id: u64, title: &str) -> Column {
    let mut c = Column::default();
    c.id = id;
    c.title = title.to_string();
    c
}

fn mapper() -> ColumnMapper {
    ColumnMapper::new(&[column(1, "Col"), column(2, "Score"), column(3, "Link")])
}

/// Expect an object field at `index` holding a string, and return both.
fn string_field(fields: &[(String, WireValue)], index: usize) -> (&str, &str) {
    match fields[index].1 {
        WireValue::Str(ref s) => (fields[index].0.as_str(), s.as_str()),
        ref other => panic!("field {} is not a string: {:?}", index, other),
    }
}

#[test]
fn test_builder_shape_correctness() {
    let cols = mapper();
    let builder = CellBuilder::new(&cols);

    // The multi-picklist cell: value unset, object_value exactly
    // {"objectType": "MULTI_PICKLIST", "values": ["A", "B"]}.
    let values = vec!["A".to_string(), "B".to_string()];
    let cell = builder.new_multi_picklist_cell("Col", &values).unwrap();
    assert_eq!(cell.column_id, 1);
    assert!(cell.value.is_none());
    let fields = match cell.object_value {
        Some(WireValue::Obj(ref fields)) => fields,
        ref other => panic!("object_value is not an object: {:?}", other),
    };
    assert_eq!(fields.len(), 2);
    assert_eq!(string_field(fields, 0), ("objectType", "MULTI_PICKLIST"));
    assert_eq!(fields[1].0, "values");
    match fields[1].1 {
        WireValue::Arr(ref items) => {
            assert_eq!(items.len(), 2);
            assert!(matches!(items[0], WireValue::Str(ref s) if s == "A"));
            assert!(matches!(items[1], WireValue::Str(ref s) if s == "B"));
        },
        ref other => panic!("values is not an array: {:?}", other),
    }

    // The scalar cell: object_value unset, value Text("x").
    let cell = builder.new_cell("Col", CellValue::from_text("x")).unwrap();
    assert_eq!(cell.column_id, 1);
    assert!(cell.object_value.is_none());
    assert!(matches!(cell.value, Some(CellValue::Text(ref s)) if s == "x"));
}

#[test]
fn test_builders_fail_on_unknown_column() {
    let cols = mapper();
    let builder = CellBuilder::new(&cols);
    let missing = ModelError::ColumnNotFound { title: "Missing".to_string() };
    assert_eq!(builder.new_cell("Missing", CellValue::from_u64(1)).unwrap_err(), missing);
    assert_eq!(builder.new_url_hyperlink_cell("Missing", "t", "u").unwrap_err(), missing);
    assert_eq!(builder.new_multi_picklist_cell("Missing", &vec![]).unwrap_err(), missing);
    assert_eq!(
        builder.new_contact_cell("Missing", Contact::with_email("a@b.com")).unwrap_err(),
        missing
    );
    assert_eq!(builder.new_multi_contact_cell("Missing", &vec![]).unwrap_err(), missing);
}

#[test]
fn test_url_hyperlink_cell_sets_two_fields() {
    let cols = mapper();
    let builder = CellBuilder::new(&cols);
    let cell = builder.new_url_hyperlink_cell("Link", "the docs", "https://example.com").unwrap();
    assert_eq!(cell.column_id, 3);
    assert!(matches!(cell.value, Some(CellValue::Text(ref s)) if s == "the docs"));
    let link = cell.hyperlink.unwrap();
    assert_eq!(link.url, "https://example.com");
    assert!(link.report_id.is_none() && link.sheet_id.is_none() && link.sight_id.is_none());
    assert!(cell.object_value.is_none());
}

#[test]
fn test_contact_cell_shape() {
    let cols = mapper();
    let builder = CellBuilder::new(&cols);
    let contact = Contact::with_email("john@example.com").name("John");
    let cell = builder.new_contact_cell("Col", contact).unwrap();
    let fields = match cell.object_value {
        Some(WireValue::Obj(ref fields)) => fields,
        ref other => panic!("object_value is not an object: {:?}", other),
    };
    assert_eq!(fields.len(), 3);
    assert_eq!(string_field(fields, 0), ("objectType", "CONTACT"));
    assert_eq!(string_field(fields, 1), ("email", "john@example.com"));
    assert_eq!(string_field(fields, 2), ("name", "John"));
}

#[test]
fn test_multi_contact_cell_shape_and_read_back() {
    let cols = mapper();
    let builder = CellBuilder::new(&cols);
    let contacts = vec![
        Contact::with_email("john1@example.com").name("One"),
        Contact::with_email("john2@example.com"),
    ];
    let cell = builder.new_multi_contact_cell("Col", &contacts).unwrap();
    let fields = match cell.object_value {
        Some(WireValue::Obj(ref fields)) => fields,
        ref other => panic!("object_value is not an object: {:?}", other),
    };
    assert_eq!(string_field(fields, 0), ("objectType", "MULTI_CONTACT"));
    assert_eq!(fields[1].0, "values");

    // What the builder wrote, the reader reads back.
    let read = cell.contacts().unwrap();
    assert_eq!(read.len(), 2);
    assert_eq!(read[0].email, "john1@example.com");
    assert_eq!(read[0].name.as_deref(), Some("One"));
    assert_eq!(read[1].email, "john2@example.com");
    assert!(read[1].name.is_none());
}

#[test]
fn test_symbol_cells_use_their_fixed_vocabulary() {
    let cols = mapper();
    let builder = CellBuilder::new(&cols);
    let cell = builder.new_cell("Col", CellValue::from_text(LightPicker::Green.as_str())).unwrap();
    assert!(matches!(cell.value, Some(CellValue::Text(ref s)) if s == "Green"));
    let cell = builder.new_cell("Col", CellValue::from_text(Decision::Hold.as_str())).unwrap();
    assert!(matches!(cell.value, Some(CellValue::Text(ref s)) if s == "Hold"));
    assert_eq!(LightPicker::Red.as_str(), "Red");
    assert_eq!(Decision::Yes.as_str(), "Yes");
}
