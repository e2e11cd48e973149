use smartsheet_rs::models::{
    AccessLevel, Hyperlink, IndentEnabled, Number, Row, User, WireValue,
};

fn field(w: &WireValue, index: usize) -> (&str, &WireValue) {
    match *w {
        WireValue::Obj(ref fields) => (fields[index].0.as_str(), &fields[index].1),
        ref other => panic!("not an object: {:?}", other),
    }
}

fn field_count(w: &WireValue) -> usize {
    match *w {
        WireValue::Obj(ref fields) => fields.len(),
        ref other => panic!("not an object: {:?}", other),
    }
}

#[test]
fn test_serialize_row() {
    let mut row = Row::default();
    row.id = 123;
    row.sheet_id = Some(321);
    row.access_level = Some(AccessLevel::Admin);
    row.attachments = Some(vec![]);
    row.conditional_format = Some("conditional fmt".to_string());
    row.created_at = "abc".to_string();
    row.created_by = Some(User { email: "a@b.com".to_string(), name: Some("Test".to_string()) });
    row.discussions = Some(vec![]);
    row.expanded = Some(false);
    row.filtered_out = Some(true);
    row.format = Some("my fmt".to_string());
    row.in_critical_path = Some(true);
    row.locked = Some(false);
    row.locked_for_user = Some(true);
    row.modified_at = "abc".to_string();
    row.modified_by = Some(User { email: "z@a.com".to_string(), name: Some("My Name".to_string()) });
    row.permalink = Some("test link".to_string());
    row.row_number = 123;
    row.version = Some(111);
    row.sibling_id = Some(123);
    row.parent_id = Some(321);
    row.to_top = Some(true);
    row.to_bottom = Some(true);
    row.indent = None;
    row.outdent = Some(IndentEnabled::TRUE);

    let wire = row.into_write_value();
    // id, cells, expanded, format, locked, siblingId, parentId, toTop,
    // toBottom, outdent — and none of the response-only metadata.
    assert_eq!(field_count(&wire), 10);
    let (key, value) = field(&wire, 0);
    assert_eq!(key, "id");
    assert!(matches!(*value, WireValue::Num(n) if n == Number::from_u64(123)));
    let (key, cells) = field(&wire, 1);
    assert_eq!(key, "cells");
    assert!(matches!(*cells, WireValue::Arr(ref items) if items.is_empty()));
    assert_eq!(field(&wire, 2).0, "expanded");
    assert_eq!(field(&wire, 3).0, "format");
    assert!(matches!(*field(&wire, 3).1, WireValue::Str(ref s) if s == "my fmt"));
    assert_eq!(field(&wire, 4).0, "locked");
    assert_eq!(field(&wire, 5).0, "siblingId");
    assert_eq!(field(&wire, 6).0, "parentId");
    assert_eq!(field(&wire, 7).0, "toTop");
    assert_eq!(field(&wire, 8).0, "toBottom");
    let (key, value) = field(&wire, 9);
    assert_eq!(key, "outdent");
    // indent/outdent serialize as the bare number 1.
    assert!(matches!(*value, WireValue::Num(n) if n == Number::from_u64(1)));
}

#[test]
fn test_serialize_row_omits_unassigned_id() {
    // A fresh row still carries the id sentinel: the serialized body
    // leaves the id out entirely, and only the cells key remains.
    let mut row = Row::default();
    let mut cell = smartsheet_rs::models::Cell::new(4);
    cell.value = Some(smartsheet_rs::models::CellValue::from_bool(true));
    row.cells = vec![cell];

    let wire = row.into_write_value();
    assert_eq!(field_count(&wire), 1);
    let (key, cells) = field(&wire, 0);
    assert_eq!(key, "cells");
    match *cells {
        WireValue::Arr(ref items) => {
            assert_eq!(items.len(), 1);
            assert_eq!(field_count(&items[0]), 2);
            assert_eq!(field(&items[0], 0).0, "columnId");
            assert_eq!(field(&items[0], 1).0, "value");
        },
        ref other => panic!("cells is not an array: {:?}", other),
    }
}

#[test]
fn test_get_cell_by_id() {
    let mut row = Row::default();
    let mut cell = smartsheet_rs::models::Cell::new(4);
    cell.value = Some(smartsheet_rs::models::CellValue::from_text("x"));
    row.cells = vec![cell];
    assert_eq!(row.get_cell_by_id(4).unwrap().column_id, 4);
    assert_eq!(
        row.get_cell_by_id(5).unwrap_err(),
        smartsheet_rs::models::ModelError::CellAbsent { column_id: 5 }
    );
}

#[test]
fn test_link() {
    let mut link = Hyperlink::default();
    link.sheet_id = Some(12345);

    let wire = link.into_write_value();
    // The empty URL is left out: the one emitted key is sheetId.
    assert_eq!(field_count(&wire), 1);
    let (key, value) = field(&wire, 0);
    assert_eq!(key, "sheetId");
    assert!(matches!(*value, WireValue::Num(n) if n == Number::from_u64(12345)));
}

#[test]
fn test_link_with_url() {
    let link = Hyperlink::with_url("https://example.com");
    let wire = link.into_write_value();
    assert_eq!(field_count(&wire), 1);
    let (key, value) = field(&wire, 0);
    assert_eq!(key, "url");
    assert!(matches!(*value, WireValue::Str(ref s) if s == "https://example.com"));
}
