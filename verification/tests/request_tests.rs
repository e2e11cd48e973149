use smartsheet_rs::api::{
    column_path, columns_path, find_column_by_title, find_sheet_by_name, row_path, sheet_path,
    sheets_path,
};
use smartsheet_rs::builders::ParamBuilder;
use smartsheet_rs::models::{Column, Sheet};
use smartsheet_rs::status::raise_for_status;

#[test]
fn test_request_paths() {
    let endpoint = "https://api.smartsheet.com/2.0";
    assert_eq!(sheets_path(endpoint), "https://api.smartsheet.com/2.0/sheets");
    assert_eq!(sheet_path(endpoint, 54321), "https://api.smartsheet.com/2.0/sheets/54321");
    assert_eq!(
        row_path(endpoint, 54321, 99),
        "https://api.smartsheet.com/2.0/sheets/54321/rows/99"
    );
    assert_eq!(columns_path(endpoint, 7), "https://api.smartsheet.com/2.0/sheets/7/columns");
    assert_eq!(column_path(endpoint, 7, 8), "https://api.smartsheet.com/2.0/sheets/7/columns/8");
}

#[test]
fn test_param_builder_renders_query() {
    let mut pb = ParamBuilder::new(sheet_path("https://api.smartsheet.com/2.0", 1));
    pb.with_comma_separated_values(
        "rowIds",
        Some(vec!["10".to_string(), "11".to_string(), "12".to_string()]),
    );
    pb.with_value("level", Some("2".to_string()));
    pb.with_value("page", None);
    assert_eq!(
        pb.build(),
        "https://api.smartsheet.com/2.0/sheets/1?rowIds=10,11,12&level=2"
    );
}

#[test]
fn test_param_builder_overwrites_a_repeated_key() {
    // Setting a key again replaces its value: the built query carries
    // the key once, with the value it was last given.
    let mut pb = ParamBuilder::new("https://api.smartsheet.com/2.0/sheets/1".to_string());
    pb.with_value("level", Some("1".to_string()));
    pb.with_value("page", Some("4".to_string()));
    pb.with_value("level", Some("2".to_string()));
    assert_eq!(pb.build(), "https://api.smartsheet.com/2.0/sheets/1?page=4&level=2");

    let mut pb = ParamBuilder::new("u".to_string());
    pb.with_comma_separated_values("rowIds", Some(vec!["1".to_string()]));
    pb.with_comma_separated_values("rowIds", Some(vec!["2".to_string(), "3".to_string()]));
    assert_eq!(pb.build(), "u?rowIds=2,3");
}

#[test]
fn test_param_builder_without_params_keeps_url() {
    let pb = ParamBuilder::new("https://api.smartsheet.com/2.0/sheets".to_string());
    assert_eq!(pb.build(), "https://api.smartsheet.com/2.0/sheets");
}

#[test]
fn test_raise_for_status() {
    assert!(raise_for_status("u", 200, "OK").is_ok());
    assert!(raise_for_status("u", 302, "Found").is_ok());

    let e = raise_for_status("https://api.smartsheet.com/2.0/sheets", 404, "Not Found")
        .unwrap_err();
    assert_eq!(e.status, 404);
    assert_eq!(
        e.reason,
        "404 Client Error: Not Found for url: https://api.smartsheet.com/2.0/sheets"
    );
    assert!(e.message.is_none() && e.error.is_none());

    let e = raise_for_status("https://api.smartsheet.com/2.0/sheets", 503, "Service Unavailable")
        .unwrap_err();
    assert_eq!(
        e.reason,
        "503 Server Error: Service Unavailable for url: https://api.smartsheet.com/2.0/sheets"
    );
}

#[test]
fn test_find_sheet_by_name() {
    let mut a = Sheet::default();
    a.id = 1;
    a.name = "Budget".to_string();
    let mut b = Sheet::default();
    b.id = 2;
    b.name = "Roster".to_string();
    let sheets = vec![a, b];
    assert_eq!(find_sheet_by_name(&sheets, "Roster").unwrap().id, 2);
    assert!(find_sheet_by_name(&sheets, "Missing").is_none());
}

#[test]
fn test_find_column_by_title() {
    let mut a = Column::default();
    a.id = 11;
    a.title = "Name".to_string();
    let mut b = Column::default();
    b.id = 12;
    b.title = "Score".to_string();
    let columns = vec![a, b];
    assert_eq!(find_column_by_title(&columns, "Score").unwrap().id, 12);
    assert!(find_column_by_title(&columns, "score").is_none());
}
