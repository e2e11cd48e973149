use smartsheet_rs::models::{Cell, CellValue, Column, ModelError, Number, Row};
use smartsheet_rs::{CellGetter, ColumnMapper, RowGetter};

fn column(id: u64, title: &str) -> Column {
    let mut c = Column::default();
    c.id = id;
    c.title = title.to_string();
    c
}

fn cell_with_value(column_id: u64, value: CellValue) -> Cell {
    let mut c = Cell::new(column_id);
    c.value = Some(value);
    c
}

fn row(id: u64, cells: Vec<Cell>) -> Row {
    let mut r = Row::default();
    r.id = id;
    r.cells = cells;
    r
}

/// The two-column, two-row sheet data the scenario tests run over.
fn scenario() -> (Vec<Column>, Vec<Row>) {
    let columns = vec![column(1, "Name"), column(2, "Score")];
    let rows = vec![
        row(
            10,
            vec![
                cell_with_value(1, CellValue::from_text("Alice")),
                cell_with_value(2, CellValue::from_u64(90)),
            ],
        ),
        row(
            11,
            vec![
                cell_with_value(1, CellValue::from_text("Bob")),
                cell_with_value(2, CellValue::from_u64(75)),
            ],
        ),
    ];
    (columns, rows)
}

#[test]
fn test_column_mapping_bijectivity() {
    let columns = vec![column(1, "Name"), column(2, "Score"), column(3, "Done")];
    let mapper = ColumnMapper::new(&columns);
    for c in &columns {
        let id = mapper.name_to_id(&c.title).unwrap();
        assert_eq!(mapper.id_to_name(id).unwrap(), c.title);
    }
    assert_eq!(mapper.name_to_id("Score"), Some(2));
    assert_eq!(mapper.name_to_id("score"), None);
    assert_eq!(mapper.id_to_name(9), None);
}

#[test]
fn test_lookup_by_unknown_name_fails() {
    let (columns, rows) = scenario();
    let mapper = ColumnMapper::new(&columns);
    let getter = CellGetter::new(&mapper);
    let err = getter.by_name(&rows[0], "NoSuchColumn").unwrap_err();
    assert_eq!(err, ModelError::ColumnNotFound { title: "NoSuchColumn".to_string() });
    // The same holds on a row with no cells at all.
    let empty = row(99, vec![]);
    let err = getter.by_name(&empty, "NoSuchColumn").unwrap_err();
    assert_eq!(err, ModelError::ColumnNotFound { title: "NoSuchColumn".to_string() });
}

#[test]
fn test_sparse_cell_absence() {
    let columns = vec![column(1, "Name"), column(2, "Score")];
    let mapper = ColumnMapper::new(&columns);
    let getter = CellGetter::new(&mapper);
    // The row has a cell only for column 1; column 2 is known but absent.
    let sparse = row(10, vec![cell_with_value(1, CellValue::from_text("Alice"))]);
    let err = getter.by_id(&sparse, 2).unwrap_err();
    assert_eq!(err, ModelError::CellAbsent { column_id: 2 });
    let err = getter.by_name(&sparse, "Score").unwrap_err();
    assert_eq!(err, ModelError::CellAbsent { column_id: 2 });
    // The cell that is there comes back.
    let cell = getter.by_name(&sparse, "Name").unwrap();
    assert_eq!(cell.value_as_str().unwrap(), "Alice");
}

#[test]
fn test_name_to_cell_collects_known_columns() {
    let (columns, rows) = scenario();
    let mapper = ColumnMapper::new(&columns);
    let getter = CellGetter::new(&mapper);
    let pairs = getter.name_to_cell(&rows[0]);
    assert_eq!(pairs.len(), 2);
    assert_eq!(pairs[0].0, "Name");
    assert_eq!(pairs[0].1.value_as_str().unwrap(), "Alice");
    assert_eq!(pairs[1].0, "Score");
    assert_eq!(pairs[1].1.value_as_u64().unwrap(), 90);
    // A cell of an unknown column is left out.
    let with_stray = row(12, vec![cell_with_value(7, CellValue::from_bool(true))]);
    assert_eq!(getter.name_to_cell(&with_stray).len(), 0);
}

#[test]
fn test_query_absence_semantics() {
    // The target column's cell exists but has no value set.
    let columns = vec![column(1, "Name"), column(2, "Score")];
    let mapper = ColumnMapper::new(&columns);
    let mut empty_cell = Cell::new(2);
    empty_cell.display_value = Some("90".to_string());
    let rows = vec![row(10, vec![empty_cell])];
    let getter = RowGetter::new(&rows, &mapper);

    let bound = CellValue::from_u64(90);
    let eq_finder = getter.where_eq("Score", bound).unwrap();
    assert_eq!(eq_finder.first().unwrap_err(), ModelError::NoMatch);

    let bound = CellValue::from_u64(90);
    let ne_finder = getter.where_ne("Score", bound).unwrap();
    // "No value" does not even count as "not equal": NE fails too.
    assert_eq!(ne_finder.first().unwrap_err(), ModelError::NoMatch);
    assert_eq!(ne_finder.find_all().unwrap().len(), 0);
}

#[test]
fn test_end_to_end_scenario() {
    let (columns, rows) = scenario();
    let mapper = ColumnMapper::new(&columns);
    let getter = RowGetter::new(&rows, &mapper);

    // where_eq("Score", 90.0).first() finds the row with id 10: the
    // fractionless 90.0 and the integer 90 are the same number.
    let bound = CellValue::from_number(Number::new(false, 900, -1));
    let first = getter.where_eq("Score", bound).unwrap().first().unwrap();
    assert_eq!(first.id, 10);

    // where_ne("Score", 90.0).find_all() yields exactly the row with id 11.
    let bound = CellValue::from_number(Number::new(false, 900, -1));
    let all = getter.where_ne("Score", bound).unwrap().find_all().unwrap();
    assert_eq!(all.len(), 1);
    assert_eq!(all[0].id, 11);

    // An unknown column name fails the query construction itself.
    let bound = CellValue::from_u64(1);
    let err = getter.where_eq("Rank", bound).unwrap_err();
    assert_eq!(err, ModelError::ColumnNotFound { title: "Rank".to_string() });
}

#[test]
fn test_where_eq_by_id_and_first_order() {
    let (columns, mut rows) = scenario();
    // A third row duplicating Alice's score: first() must keep row order.
    rows.push(row(12, vec![cell_with_value(2, CellValue::from_u64(90))]));
    let mapper = ColumnMapper::new(&columns);
    let getter = RowGetter::new(&rows, &mapper);

    let finder = getter.where_eq_by_id(2, CellValue::from_u64(90));
    assert_eq!(finder.first().unwrap().id, 10);
    let all = finder.find_all().unwrap();
    assert_eq!(all.len(), 2);
    assert_eq!(all[0].id, 10);
    assert_eq!(all[1].id, 12);

    let finder = getter.where_ne_by_id(2, CellValue::from_u64(90));
    assert_eq!(finder.first().unwrap().id, 11);
}

#[test]
fn test_get_row_by_id() {
    let (columns, rows) = scenario();
    let mut sheet = smartsheet_rs::models::Sheet::default();
    sheet.id = 5;
    sheet.columns = columns;
    sheet.rows = rows;
    assert_eq!(sheet.get_row_by_id(11).unwrap().id, 11);
    assert_eq!(sheet.get_row_by_id(404).unwrap_err(), ModelError::NoMatch);
}
