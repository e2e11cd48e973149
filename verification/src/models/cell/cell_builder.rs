//! **Cell Builder** - Utility to construct well-formed `Cell` objects
//! for each of the distinct column shapes the service recognizes.

use crate::helpers::{spec_id_of, ColumnMapper};
use crate::models::cell::cell::{spec_contact_of, Cell};
use crate::models::cell::contact::Contact;
use crate::models::cell::object_type::ObjectType;
use crate::models::cell::value::CellValue;
use crate::models::error::ModelError;
use crate::models::params::EnumStr;
use crate::models::wire::{spec_get, WireValue};
use vstd::prelude::*;

verus! {

/// A cell ready to be sent: everything the builder does not set is
/// unset, so nothing response-only ever reaches a write request.
pub open spec fn spec_blank_rest(c: Cell) -> bool {
    &&& c.column_type is None
    &&& c.conditional_format is None
    &&& c.display_value is None
    &&& c.format is None
    &&& c.formula is None
    &&& c.image is None
    &&& c.override_validation is None
    &&& c.strict is None
}

/// The `objectValue` of a multi-select cell:
/// `{"objectType": "MULTI_PICKLIST", "values": [...]}` and nothing else.
pub open spec fn spec_multi_picklist_obj(ov: WireValue, values: Seq<Seq<char>>) -> bool {
    &&& ov is Obj
    &&& {
        let fs = ov->Obj_0@;
        &&& fs.len() == 2
        &&& fs[0].0@ == "objectType"@
        &&& fs[0].1 matches WireValue::Str(t) && t@ == "MULTI_PICKLIST"@
        &&& fs[1].0@ == "values"@
        &&& fs[1].1 matches WireValue::Arr(items) && items@.len() == values.len() && (forall|
            i: int,
        |
            0 <= i < values.len() ==> ((#[trigger] items@[i]) matches WireValue::Str(s) && s@
                == values[i]))
    }
}

/// The wire object of one contact:
/// `{"objectType": "CONTACT", "email": ..., "name"?: ...}`, the name key
/// present exactly when the contact has a name.
pub open spec fn spec_contact_obj(ov: WireValue, c: Contact) -> bool {
    &&& ov is Obj
    &&& {
        let fs = ov->Obj_0@;
        &&& fs.len() == 2 + (if c.name is Some {
            1int
        } else {
            0
        })
        &&& fs[0].0@ == "objectType"@
        &&& fs[0].1 matches WireValue::Str(t) && t@ == "CONTACT"@
        &&& fs[1].0@ == "email"@
        &&& fs[1].1 matches WireValue::Str(s) && s@ == c.email@
        &&& (c.name matches Some(n) ==> {
            &&& fs[2].0@ == "name"@
            &&& fs[2].1 matches WireValue::Str(s) && s@ == n@
        })
    }
}

/// The `objectValue` of a multi-contact cell:
/// `{"objectType": "MULTI_CONTACT", "values": [contact objects]}`.
pub open spec fn spec_multi_contact_obj(ov: WireValue, contacts: Seq<Contact>) -> bool {
    &&& ov is Obj
    &&& {
        let fs = ov->Obj_0@;
        &&& fs.len() == 2
        &&& fs[0].0@ == "objectType"@
        &&& fs[0].1 matches WireValue::Str(t) && t@ == "MULTI_CONTACT"@
        &&& fs[1].0@ == "values"@
        &&& fs[1].1 matches WireValue::Arr(items) && items@.len() == contacts.len() && (forall|
            i: int,
        |
            0 <= i < contacts.len() ==> spec_contact_obj(#[trigger] items@[i], contacts[i]))
    }
}

/// What the builder writes, the reader reads back: a contact object in
/// the shape [`spec_contact_obj`] gives is exactly one that
/// [`spec_contact_of`] parses, with the same email and name.
pub proof fn lemma_contact_obj_parses(ov: WireValue, c: Contact)
    requires
        spec_contact_obj(ov, c),
    ensures
        spec_contact_of(ov) matches Some(p) && p.0 == c.email@ && (match c.name {
            Some(n) => p.1 == Some(n@),
            None => p.1 is None,
        }),
{
    reveal_strlit("objectType");
    reveal_strlit("email");
    reveal_strlit("name");
    assert(("objectType"@).len() == 10);
    assert(("email"@).len() == 5);
    assert(("name"@).len() == 4);
    assert("objectType"@ != "email"@);
    assert("objectType"@ != "name"@);
    assert("email"@ != "name"@);
    let fs = ov->Obj_0@;
    let rest = fs.drop_first();
    assert(spec_get(fs, "objectType"@) == Some(fs[0].1));
    assert(rest[0] == fs[1]);
    assert(spec_get(rest, "email"@) == Some(fs[1].1));
    assert(spec_get(fs, "email"@) == Some(fs[1].1));
    if c.name is Some {
        assert(rest.drop_first()[0] == fs[2]);
        assert(spec_get(rest.drop_first(), "name"@) == Some(fs[2].1));
        assert(spec_get(rest, "name"@) == Some(fs[2].1));
        assert(spec_get(fs, "name"@) == Some(fs[2].1));
    } else {
        assert(rest.drop_first().len() == 0);
        assert(spec_get(rest.drop_first(), "name"@) is None);
        assert(spec_get(rest, "name"@) is None);
        assert(spec_get(fs, "name"@) is None);
    }
}

/// Build the wire object of one contact.
fn contact_to_wire(c: &Contact) -> (r: WireValue)
    ensures
        spec_contact_obj(r, *c),
{
    let mut fields: Vec<(String, WireValue)> = Vec::new();
    fields.push((
        "objectType".to_owned(),
        WireValue::Str(ObjectType::Contact.as_str().to_owned()),
    ));
    fields.push(("email".to_owned(), WireValue::Str(c.email.clone())));
    if let Some(ref name) = c.name {
        fields.push(("name".to_owned(), WireValue::Str(name.clone())));
    }
    WireValue::Obj(fields)
}

/// **Cell Builder** - Utility to make it easier to construct a `Cell`
/// object, which is useful when adding or updating `Row`s in a `Sheet`.
///
/// Every builder method resolves the column title through the mapping
/// first and fails with `ColumnNotFound` on an unknown title — the
/// dominant failure mode of cell construction.
pub struct CellBuilder<'a> {
    /// The column mapping that resolves titles to ids.
    pub name_to_id: &'a ColumnMapper,
}

impl<'a> CellBuilder<'a> {
    /// Create a new `CellBuilder` from a reference to a `ColumnMapper`
    /// object.
    pub fn new(cols: &'a ColumnMapper) -> (r: Self)
        ensures
            r.name_to_id == cols,
    {
        Self { name_to_id: cols }
    }

    /// A scalar cell: the value goes into `value`, and `object_value`
    /// stays unset. Fails with `ColumnNotFound` on an unknown title.
    pub fn new_cell(&self, column_name: &str, value: CellValue) -> (r: Result<Cell, ModelError>)
        ensures
            match r {
                Ok(c) => {
                    &&& spec_id_of(self.name_to_id@, column_name@) == Some(c.column_id)
                    &&& c.value == Some(value)
                    &&& c.object_value is None
                    &&& c.hyperlink is None
                    &&& spec_blank_rest(c)
                },
                Err(e) => {
                    &&& spec_id_of(self.name_to_id@, column_name@) is None
                    &&& e matches ModelError::ColumnNotFound { title } && title@ == column_name@
                },
            },
    {
        match self.name_to_id.name_to_id(column_name) {
            Some(column_id) => Ok(self.new_cell_with_id(column_id, value)),
            None => Err(ModelError::ColumnNotFound { title: column_name.to_owned() }),
        }
    }

    /// A scalar cell for a column already resolved to its id.
    pub fn new_cell_with_id(&self, column_id: u64, value: CellValue) -> (c: Cell)
        ensures
            c.column_id == column_id,
            c.value == Some(value),
            c.object_value is None,
            c.hyperlink is None,
            spec_blank_rest(c),
    {
        let mut cell = Cell::new(column_id);
        cell.value = Some(value);
        cell
    }

    /// A hyperlink cell: the display text goes into `value` and the URL
    /// into `hyperlink` — the one builder that populates two fields at
    /// once. Fails with `ColumnNotFound` on an unknown title.
    pub fn new_url_hyperlink_cell(
        &self,
        column_name: &str,
        display_text: &str,
        url: &str,
    ) -> (r: Result<Cell, ModelError>)
        ensures
            match r {
                Ok(c) => {
                    &&& spec_id_of(self.name_to_id@, column_name@) == Some(c.column_id)
                    &&& c.value matches Some(v) && v matches CellValue::Text(t) && t@
                        == display_text@
                    &&& c.hyperlink matches Some(h) && h.url@ == url@ && h.report_id is None
                        && h.sheet_id is None && h.sight_id is None
                    &&& c.object_value is None
                    &&& spec_blank_rest(c)
                },
                Err(e) => {
                    &&& spec_id_of(self.name_to_id@, column_name@) is None
                    &&& e matches ModelError::ColumnNotFound { title } && title@ == column_name@
                },
            },
    {
        match self.name_to_id.name_to_id(column_name) {
            Some(column_id) => Ok(self.new_url_hyperlink_cell_with_id(column_id, display_text, url)),
            None => Err(ModelError::ColumnNotFound { title: column_name.to_owned() }),
        }
    }

    /// A hyperlink cell for a column already resolved to its id.
    pub fn new_url_hyperlink_cell_with_id(
        &self,
        column_id: u64,
        display_text: &str,
        url: &str,
    ) -> (c: Cell)
        ensures
            c.column_id == column_id,
            c.value matches Some(v) && v matches CellValue::Text(t) && t@ == display_text@,
            c.hyperlink matches Some(h) && h.url@ == url@ && h.report_id is None && h.sheet_id
                is None && h.sight_id is None,
            c.object_value is None,
            spec_blank_rest(c),
    {
        let mut cell = Cell::new(column_id);
        cell.value = Some(CellValue::from_text(display_text));
        cell.hyperlink = Some(crate::models::cell::hyperlink::Hyperlink::with_url(url));
        cell
    }

    /// A multi-select cell: the chosen options go into `object_value` as
    /// a `MULTI_PICKLIST` object, and `value` stays unset — the API
    /// represents multi-select differently from a scalar on the wire.
    /// Fails with `ColumnNotFound` on an unknown title.
    pub fn new_multi_picklist_cell(&self, column_name: &str, values: &Vec<String>) -> (r: Result<
        Cell,
        ModelError,
    >)
        ensures
            match r {
                Ok(c) => {
                    &&& spec_id_of(self.name_to_id@, column_name@) == Some(c.column_id)
                    &&& c.value is None
                    &&& c.object_value matches Some(ov) && spec_multi_picklist_obj(
                        ov,
                        values@.map_values(|s: String| s@),
                    )
                    &&& c.hyperlink is None
                    &&& spec_blank_rest(c)
                },
                Err(e) => {
                    &&& spec_id_of(self.name_to_id@, column_name@) is None
                    &&& e matches ModelError::ColumnNotFound { title } && title@ == column_name@
                },
            },
    {
        match self.name_to_id.name_to_id(column_name) {
            Some(column_id) => Ok(self.new_multi_picklist_cell_with_id(column_id, values)),
            None => Err(ModelError::ColumnNotFound { title: column_name.to_owned() }),
        }
    }

    /// A multi-select cell for a column already resolved to its id.
    #[verifier::loop_isolation(false)]
    pub fn new_multi_picklist_cell_with_id(&self, column_id: u64, values: &Vec<String>) -> (c:
        Cell)
        ensures
            c.column_id == column_id,
            c.value is None,
            c.object_value matches Some(ov) && spec_multi_picklist_obj(
                ov,
                values@.map_values(|s: String| s@),
            ),
            c.hyperlink is None,
            spec_blank_rest(c),
    {
        let mut items: Vec<WireValue> = Vec::new();
        let mut i: usize = 0;
        while i < values.len()
            invariant
                i <= values@.len(),
                items@.len() == i,
                forall|j: int|
                    0 <= j < i ==> ((#[trigger] items@[j]) matches WireValue::Str(s) && s@
                        == values@[j]@),
            decreases values@.len() - i,
        {
            items.push(WireValue::Str(values[i].clone()));
            i = i + 1;
        }
        let mut fields: Vec<(String, WireValue)> = Vec::new();
        fields.push((
            "objectType".to_owned(),
            WireValue::Str(ObjectType::MultiPicklist.as_str().to_owned()),
        ));
        fields.push(("values".to_owned(), WireValue::Arr(items)));
        let mut cell = Cell::new(column_id);
        cell.object_value = Some(WireValue::Obj(fields));
        cell
    }

    /// A single-contact cell: the contact goes into `object_value` as a
    /// `CONTACT` object. Fails with `ColumnNotFound` on an unknown
    /// title.
    pub fn new_contact_cell(&self, column_name: &str, contact: Contact) -> (r: Result<
        Cell,
        ModelError,
    >)
        ensures
            match r {
                Ok(c) => {
                    &&& spec_id_of(self.name_to_id@, column_name@) == Some(c.column_id)
                    &&& c.value is None
                    &&& c.object_value matches Some(ov) && spec_contact_obj(ov, contact)
                    &&& c.hyperlink is None
                    &&& spec_blank_rest(c)
                },
                Err(e) => {
                    &&& spec_id_of(self.name_to_id@, column_name@) is None
                    &&& e matches ModelError::ColumnNotFound { title } && title@ == column_name@
                },
            },
    {
        match self.name_to_id.name_to_id(column_name) {
            Some(column_id) => Ok(self.new_contact_cell_with_id(column_id, contact)),
            None => Err(ModelError::ColumnNotFound { title: column_name.to_owned() }),
        }
    }

    /// A single-contact cell for a column already resolved to its id.
    pub fn new_contact_cell_with_id(&self, column_id: u64, contact: Contact) -> (c: Cell)
        ensures
            c.column_id == column_id,
            c.value is None,
            c.object_value matches Some(ov) && spec_contact_obj(ov, contact),
            c.hyperlink is None,
            spec_blank_rest(c),
    {
        let mut cell = Cell::new(column_id);
        cell.object_value = Some(contact_to_wire(&contact));
        cell
    }

    /// A multi-contact cell: the contacts go into `object_value` as a
    /// `MULTI_CONTACT` object. Fails with `ColumnNotFound` on an unknown
    /// title.
    pub fn new_multi_contact_cell(&self, column_name: &str, contacts: &Vec<Contact>) -> (r: Result<
        Cell,
        ModelError,
    >)
        ensures
            match r {
                Ok(c) => {
                    &&& spec_id_of(self.name_to_id@, column_name@) == Some(c.column_id)
                    &&& c.value is None
                    &&& c.object_value matches Some(ov) && spec_multi_contact_obj(ov, contacts@)
                    &&& c.hyperlink is None
                    &&& spec_blank_rest(c)
                },
                Err(e) => {
                    &&& spec_id_of(self.name_to_id@, column_name@) is None
                    &&& e matches ModelError::ColumnNotFound { title } && title@ == column_name@
                },
            },
    {
        match self.name_to_id.name_to_id(column_name) {
            Some(column_id) => Ok(self.new_multi_contact_cell_with_id(column_id, contacts)),
            None => Err(ModelError::ColumnNotFound { title: column_name.to_owned() }),
        }
    }

    /// A multi-contact cell for a column already resolved to its id.
    #[verifier::loop_isolation(false)]
    pub fn new_multi_contact_cell_with_id(&self, column_id: u64, contacts: &Vec<Contact>) -> (c:
        Cell)
        ensures
            c.column_id == column_id,
            c.value is None,
            c.object_value matches Some(ov) && spec_multi_contact_obj(ov, contacts@),
            c.hyperlink is None,
            spec_blank_rest(c),
    {
        let mut items: Vec<WireValue> = Vec::new();
        let mut i: usize = 0;
        while i < contacts.len()
            invariant
                i <= contacts@.len(),
                items@.len() == i,
                forall|j: int| 0 <= j < i ==> spec_contact_obj(#[trigger] items@[j], contacts@[j]),
            decreases contacts@.len() - i,
        {
            items.push(contact_to_wire(&contacts[i]));
            i = i + 1;
        }
        let mut fields: Vec<(String, WireValue)> = Vec::new();
        fields.push((
            "objectType".to_owned(),
            WireValue::Str(ObjectType::MultiContact.as_str().to_owned()),
        ));
        fields.push(("values".to_owned(), WireValue::Arr(items)));
        let mut cell = Cell::new(column_id);
        cell.object_value = Some(WireValue::Obj(fields));
        cell
    }
}

} // verus!
