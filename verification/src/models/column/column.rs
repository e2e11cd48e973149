use crate::models::column::contact_option::ContactOption;
use vstd::prelude::*;

verus! {

/// A column definition within a sheet: a stable, server-assigned numeric
/// id, a zero-based position, a human-readable title, and a string-coded
/// column type. The service creates and owns columns; this library only
/// consumes them.
#[derive(Debug, Clone)]
pub struct Column {
    pub id: u64,
    pub index: u64,
    pub locked: Option<bool>,
    pub locked_for_user: Option<bool>,
    pub title: String,
    pub type_field: String,
    pub validation: bool,
    pub version: u64,
    pub width: u64,
    pub description: Option<String>,
    pub options: Option<Vec<String>>,
    pub hidden: Option<bool>,
    pub symbol: Option<String>,
    pub tags: Option<Vec<String>>,
    pub primary: Option<bool>,
    pub format: Option<String>,
    pub formula: Option<String>,
    pub contact_options: Option<Vec<ContactOption>>,
}

impl Default for Column {
    /// A blank column: id and index zero, empty title and type.
    fn default() -> (r: Self)
        ensures
            r.id == 0,
            r.index == 0,
            r.locked is None,
            r.locked_for_user is None,
            r.title@ == Seq::<char>::empty(),
            r.type_field@ == Seq::<char>::empty(),
            !r.validation,
            r.version == 0,
            r.width == 0,
            r.description is None,
            r.options is None,
            r.hidden is None,
            r.symbol is None,
            r.tags is None,
            r.primary is None,
            r.format is None,
            r.formula is None,
            r.contact_options is None,
    {
        Self {
            id: 0,
            index: 0,
            locked: None,
            locked_for_user: None,
            title: String::new(),
            type_field: String::new(),
            validation: false,
            version: 0,
            width: 0,
            description: None,
            options: None,
            hidden: None,
            symbol: None,
            tags: None,
            primary: None,
            format: None,
            formula: None,
            contact_options: None,
        }
    }
}

} // verus!
