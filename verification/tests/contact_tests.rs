use smartsheet_rs::models::{Contact, ContactEmailAddrs, ContactOwned, WireValue};
use smartsheet_rs::{CellBuilder, ColumnMapper};
use smartsheet_rs::models::Column;

fn builder_columns() -> Vec<Column> {
    let mut c = Column::default();
    c.id = 1;
    c.title = "Who".to_string();
    vec![c]
}

fn contact_fields(cell: smartsheet_rs::models::Cell) -> Vec<(String, WireValue)> {
    match cell.object_value {
        Some(WireValue::Obj(fields)) => fields,
        ref other => panic!("object_value is not an object: {:?}", other),
    }
}

#[test]
fn test_serialize_with_empty_email() {
    let c = Contact::with_email("");
    let cols = ColumnMapper::new(&builder_columns());
    let cell = CellBuilder::new(&cols).new_contact_cell("Who", c).unwrap();
    let fields = contact_fields(cell);
    // Exactly the tag and the (empty) email; no name key.
    assert_eq!(fields.len(), 2);
    assert_eq!(fields[0].0, "objectType");
    assert!(matches!(fields[0].1, WireValue::Str(ref s) if s == "CONTACT"));
    assert_eq!(fields[1].0, "email");
    assert!(matches!(fields[1].1, WireValue::Str(ref s) if s.is_empty()));
}

#[test]
fn contact_test_serialize() {
    let c = Contact::with_email("my@email.com").name("My Name");
    let cols = ColumnMapper::new(&builder_columns());
    let cell = CellBuilder::new(&cols).new_contact_cell("Who", c).unwrap();
    let fields = contact_fields(cell);
    assert_eq!(fields.len(), 3);
    assert_eq!(fields[0].0, "objectType");
    assert!(matches!(fields[0].1, WireValue::Str(ref s) if s == "CONTACT"));
    assert_eq!(fields[1].0, "email");
    assert!(matches!(fields[1].1, WireValue::Str(ref s) if s == "my@email.com"));
    assert_eq!(fields[2].0, "name");
    assert!(matches!(fields[2].1, WireValue::Str(ref s) if s == "My Name"));
}

#[test]
fn test_deserialize_with_name_address() {
    let contacts: Vec<ContactOwned> = vec![
        ContactOwned { email: "john1@email.com".to_string(), name: Some("My Name".to_string()) },
        ContactOwned { email: "john2@email.com".to_string(), name: Some("Other Name".to_string()) },
    ];

    let name_addrs = contacts.name_addrs();

    assert_eq!(name_addrs, ["My Name <john1@email.com>", "Other Name <john2@email.com>"]);
}

#[test]
fn test_addrs_and_addrs_str() {
    let contacts: Vec<ContactOwned> = vec![
        ContactOwned { email: "john1@example.com".to_string(), name: None },
        ContactOwned { email: "john2@example.com".to_string(), name: Some("Two".to_string()) },
    ];
    assert_eq!(contacts.addrs(), ["john1@example.com", "john2@example.com"]);
    assert_eq!(contacts.addrs_str(), "john1@example.com, john2@example.com");
    // A contact without a name renders as the bare address.
    assert_eq!(contacts.name_addrs()[0], "john1@example.com");

    let none: Vec<ContactOwned> = vec![];
    assert_eq!(none.addrs_str(), "");

    let fluent = Contact::with_email("a@b.com").email("c@d.com");
    assert_eq!(fluent.email, "c@d.com");
    assert!(fluent.name.is_none());
}
