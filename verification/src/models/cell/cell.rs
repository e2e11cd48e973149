//! The cell entity: one value at the intersection of a row and a column.

use crate::models::cell::contact::ContactOwned;
use crate::models::cell::hyperlink::{hyperlink_write_obj, Hyperlink};
use crate::models::cell::image::Image;
use crate::models::cell::value::{spec_encoded, CellValue};
use crate::models::error::ModelError;
use crate::models::wire::{spec_get, Number, WireValue};
use vstd::prelude::*;
use vstd::string::StringExecFns;

verus! {

/// One cell of a row.
///
/// The struct carries both directions of the exchange: `display_value`
/// and the other response-only projections are never sent on a write,
/// while `strict` and `override_validation` are request-only directives
/// never present on data read back. [`Cell::into_write_value`] is the
/// outbound projection that enforces the asymmetry.
#[derive(Debug)]
pub struct Cell {
    /// The Id of the column that the cell is located in.
    pub column_id: u64,
    /// Only returned if the include query string parameter contains
    /// `columnType`; response-only.
    pub column_type: Option<String>,
    /// The format descriptor describing this cell's conditional format;
    /// response-only.
    pub conditional_format: Option<String>,
    /// Represents a hyperlink to a dashboard, report, sheet, or URL.
    pub hyperlink: Option<Hyperlink>,
    /// A cell's raw value: a string, a number, or a boolean, depending on
    /// the column type. An empty cell returns no value.
    pub value: Option<CellValue>,
    /// The formatted value as it should be displayed to an end-user;
    /// always a string, and response-only.
    pub display_value: Option<String>,
    /// The structured representation of a cell's value, used for
    /// multi-select lists, contact lists, and other composite payloads.
    pub object_value: Option<WireValue>,
    /// The format descriptor; response-only.
    pub format: Option<String>,
    /// The formula for a cell, if set; response-only.
    pub formula: Option<String>,
    /// The cell image object; response-only.
    pub image: Option<Image>,
    /// (Admin only) Whether the cell value may sit outside the column's
    /// validation limits; request-only.
    pub override_validation: Option<bool>,
    /// Set to false to enable lenient parsing; request-only.
    pub strict: Option<bool>,
}

impl Default for Cell {
    /// A cell with no column and nothing set.
    fn default() -> (r: Self)
        ensures
            r.column_id == 0,
            r.column_type is None,
            r.conditional_format is None,
            r.hyperlink is None,
            r.value is None,
            r.display_value is None,
            r.object_value is None,
            r.format is None,
            r.formula is None,
            r.image is None,
            r.override_validation is None,
            r.strict is None,
    {
        Self {
            column_id: 0,
            column_type: None,
            conditional_format: None,
            hyperlink: None,
            value: None,
            display_value: None,
            object_value: None,
            format: None,
            formula: None,
            image: None,
            override_validation: None,
            strict: None,
        }
    }
}

/// What the `values` list of a structured `objectValue` holds, when the
/// cell has an object value of the expected object shape.
pub open spec fn spec_object_values(c: Cell) -> Option<WireValue> {
    match c.object_value {
        Some(ov) => if ov is Obj {
            spec_get(ov->Obj_0@, "values"@)
        } else {
            None
        },
        None => None,
    }
}

/// The contact a wire value describes: an object tagged `CONTACT` with an
/// `email` string and an optional `name` string. The result pairs the
/// email characters with the optional name characters.
pub open spec fn spec_contact_of(v: WireValue) -> Option<(Seq<char>, Option<Seq<char>>)> {
    match v {
        WireValue::Obj(fs) => match (spec_get(fs@, "objectType"@), spec_get(fs@, "email"@)) {
            (Some(WireValue::Str(tag)), Some(WireValue::Str(email))) => if tag@ == "CONTACT"@ {
                match spec_get(fs@, "name"@) {
                    None => Some((email@, None)),
                    Some(WireValue::Null) => Some((email@, None)),
                    Some(WireValue::Str(name)) => Some((email@, Some(name@))),
                    Some(_) => None,
                }
            } else {
                None
            },
            _ => None,
        },
        _ => None,
    }
}

/// The outbound wire object for a cell: `columnId` plus whichever of
/// `hyperlink`, `value`, `objectValue`, `overrideValidation` and `strict`
/// is set, in that order, and *no other key*. The response-only fields —
/// `columnType`, `conditionalFormat`, `displayValue`, `format`,
/// `formula`, `image` — are never emitted on a write, even when present.
pub open spec fn cell_write_obj(c: Cell, w: WireValue) -> bool {
    &&& w is Obj
    &&& {
        let fs = w->Obj_0@;
        let has_link: int = if c.hyperlink is Some {
            1
        } else {
            0
        };
        let has_value: int = if c.value is Some {
            1
        } else {
            0
        };
        let has_obj: int = if c.object_value is Some {
            1
        } else {
            0
        };
        let has_ov: int = if c.override_validation is Some {
            1
        } else {
            0
        };
        &&& fs.len() == 1 + has_link + has_value + has_obj + has_ov + (if c.strict is Some {
            1int
        } else {
            0
        })
        &&& fs[0].0@ == "columnId"@
        &&& fs[0].1 == WireValue::Num(Number::spec_norm(false, c.column_id, 0))
        &&& (c.hyperlink matches Some(h) ==> (fs[1].0@ == "hyperlink"@ && hyperlink_write_obj(
            h,
            fs[1].1,
        )))
        &&& (c.value matches Some(v) ==> (fs[1 + has_link].0@ == "value"@ && fs[1 + has_link].1
            == spec_encoded(v)))
        &&& (c.object_value matches Some(ov) ==> (fs[1 + has_link + has_value].0@ == "objectValue"@
            && fs[1 + has_link + has_value].1 == ov))
        &&& (c.override_validation matches Some(b) ==> (fs[1 + has_link + has_value + has_obj].0@
            == "overrideValidation"@ && fs[1 + has_link + has_value + has_obj].1
            == WireValue::Bool(b)))
        &&& (c.strict matches Some(b) ==> (fs[1 + has_link + has_value + has_obj + has_ov].0@
            == "strict"@ && fs[1 + has_link + has_value + has_obj + has_ov].1 == WireValue::Bool(
            b,
        )))
    }
}

impl Cell {
    /// The outbound wire object for this cell, as [`cell_write_obj`]
    /// pins it down: the write projection omits every response-only
    /// field.
    pub fn into_write_value(self) -> (r: WireValue)
        ensures
            cell_write_obj(self, r),
    {
        let Cell { column_id, hyperlink, value, object_value, override_validation, strict, .. } =
            self;
        let mut fields: Vec<(String, WireValue)> = Vec::new();
        fields.push(("columnId".to_owned(), WireValue::Num(Number::from_u64(column_id))));
        if let Some(link) = hyperlink {
            fields.push(("hyperlink".to_owned(), link.into_write_value()));
        }
        if let Some(ref v) = value {
            fields.push(("value".to_owned(), v.encode()));
        }
        if let Some(ov) = object_value {
            fields.push(("objectValue".to_owned(), ov));
        }
        if let Some(b) = override_validation {
            fields.push(("overrideValidation".to_owned(), WireValue::Bool(b)));
        }
        if let Some(b) = strict {
            fields.push(("strict".to_owned(), WireValue::Bool(b)));
        }
        WireValue::Obj(fields)
    }

    /// Create a new `Cell` with a *Column Id*.
    pub fn new(column_id: u64) -> (r: Self)
        ensures
            r.column_id == column_id,
            r.column_type is None,
            r.conditional_format is None,
            r.hyperlink is None,
            r.value is None,
            r.display_value is None,
            r.object_value is None,
            r.format is None,
            r.formula is None,
            r.image is None,
            r.override_validation is None,
            r.strict is None,
    {
        let mut cell = Cell::default();
        cell.column_id = column_id;
        cell
    }

    /// Set the request-only `strict` directive, fluently.
    pub fn with_strict(self, strict: bool) -> (r: Cell)
        ensures
            r == (Cell { strict: Some(strict), ..self }),
    {
        Cell { strict: Some(strict), ..self }
    }

    /// Retrieve the Cell `value` as a *string*.
    pub fn value_as_str(&self) -> (r: Result<&str, ModelError>)
        ensures
            match self.value {
                Some(CellValue::Text(s)) => r matches Ok(v) && v@ == s@,
                _ => r matches Err(e) && e is ValueTypeMismatch,
            },
    {
        if let Some(ref value) = self.value {
            value.as_str()
        } else {
            Err(ModelError::ValueTypeMismatch)
        }
    }

    /// Retrieve the Cell `value` as a *string*, or `None`.
    pub fn value_as_str_safe(&self) -> (r: Option<&str>)
        ensures
            match self.value {
                Some(CellValue::Text(s)) => r matches Some(v) && v@ == s@,
                _ => r is None,
            },
    {
        if let Some(ref value) = self.value {
            value.as_str_safe()
        } else {
            None
        }
    }

    /// Retrieve the Cell `value` as a *Number*.
    pub fn value_as_number(&self) -> (r: Result<&Number, ModelError>)
        ensures
            match self.value {
                Some(CellValue::Numeric(n)) => r matches Ok(v) && *v == n,
                _ => r matches Err(e) && e is ValueTypeMismatch,
            },
    {
        if let Some(ref value) = self.value {
            value.as_number()
        } else {
            Err(ModelError::ValueTypeMismatch)
        }
    }

    /// Retrieve the Cell `value` as a *boolean*.
    pub fn value_as_bool(&self) -> (r: Result<bool, ModelError>)
        ensures
            match self.value {
                Some(CellValue::Boolean(b)) => r == Ok::<bool, ModelError>(b),
                _ => r matches Err(e) && e is ValueTypeMismatch,
            },
    {
        if let Some(ref value) = self.value {
            value.as_bool()
        } else {
            Err(ModelError::ValueTypeMismatch)
        }
    }

    /// Retrieve the Cell `value` as an *unsigned integer*.
    pub fn value_as_u64(&self) -> (r: Result<u64, ModelError>)
        ensures
            match self.value {
                Some(CellValue::Numeric(n)) => match n.as_u64_spec() {
                    Some(v) => r matches Ok(u) && u == v,
                    None => r matches Err(e) && e is ValueTypeMismatch,
                },
                _ => r matches Err(e) && e is ValueTypeMismatch,
            },
    {
        if let Some(ref value) = self.value {
            value.as_u64()
        } else {
            Err(ModelError::ValueTypeMismatch)
        }
    }

    /// Retrieve the Cell `display_value` as a *string*.
    pub fn display_value_as_str(&self) -> (r: Result<&str, ModelError>)
        ensures
            match self.display_value {
                Some(s) => r matches Ok(v) && v@ == s@,
                None => r matches Err(e) && e is ValueTypeMismatch,
            },
    {
        if let Some(ref value) = self.display_value {
            Ok(value.as_str())
        } else {
            Err(ModelError::ValueTypeMismatch)
        }
    }

    /// Retrieve the Cell `display_value` as a *string*, or `None`.
    pub fn display_value_as_str_safe(&self) -> (r: Option<&str>)
        ensures
            match self.display_value {
                Some(s) => r matches Some(v) && v@ == s@,
                None => r is None,
            },
    {
        match self.display_value {
            Some(ref v) => Some(v.as_str()),
            None => None,
        }
    }

    /// Retrieve the Cell `hyperlink` URL as a *string*.
    pub fn link_url(&self) -> (r: Result<&str, ModelError>)
        ensures
            match self.hyperlink {
                Some(link) => r matches Ok(v) && v@ == link.url@,
                None => r matches Err(e) && e is ValueTypeMismatch,
            },
    {
        if let Some(ref link) = self.hyperlink {
            Ok(link.url.as_str())
        } else {
            Err(ModelError::ValueTypeMismatch)
        }
    }

    /// Retrieve the Cell `hyperlink` URL as a *string*, or `None`.
    pub fn link_url_safe(&self) -> (r: Option<&str>)
        ensures
            match self.hyperlink {
                Some(link) => r matches Some(v) && v@ == link.url@,
                None => r is None,
            },
    {
        if let Some(ref link) = self.hyperlink {
            Some(link.url.as_str())
        } else {
            None
        }
    }

    /// Get the underlying list of values of the `object_value`, assuming
    /// the object type is **MULTI_PICKLIST** or **MULTI_CONTACT**.
    pub fn values(&self) -> (r: Result<&Vec<WireValue>, ModelError>)
        ensures
            match r {
                Ok(items) => spec_object_values(*self) matches Some(w) && w is Arr && w->Arr_0
                    == *items,
                Err(e) => e is ValueTypeMismatch && !(spec_object_values(*self) matches Some(w)
                    && w is Arr),
            },
    {
        if let Some(ref obj_value) = self.object_value {
            if let Some(obj_values) = obj_value.get("values") {
                if let Some(values) = obj_values.as_array() {
                    return Ok(values);
                }
            }
        }
        Err(ModelError::ValueTypeMismatch)
    }

    /// Retrieve info on a cell for a **MULTI_CONTACT** column: a
    /// [`ContactOwned`] for each contact in the cell, from which details
    /// such as the address list can be read.
    #[verifier::loop_isolation(false)]
    pub fn contacts(&self) -> (r: Result<Vec<ContactOwned>, ModelError>)
        ensures
            match r {
                Ok(cs) => spec_object_values(*self) matches Some(w) && w is Arr && {
                    let vals = w->Arr_0@;
                    &&& cs@.len() == vals.len()
                    &&& forall|i: int|
                        0 <= i < vals.len() ==> (spec_contact_of(#[trigger] vals[i]) matches Some(
                            p,
                        ) && cs@[i].email@ == p.0 && (match p.1 {
                            Some(n) => cs@[i].name matches Some(m) && m@ == n,
                            None => cs@[i].name is None,
                        }))
                },
                Err(e) => e is ValueTypeMismatch && !(spec_object_values(*self) matches Some(w)
                    && w is Arr && forall|i: int|
                    0 <= i < w->Arr_0@.len() ==> spec_contact_of(#[trigger] w->Arr_0@[i]) is Some),
            },
    {
        let values = self.values()?;
        let mut out: Vec<ContactOwned> = Vec::new();
        let mut i: usize = 0;
        while i < values.len()
            invariant
                i <= values@.len(),
                out@.len() == i,
                forall|j: int|
                    0 <= j < i ==> (spec_contact_of(#[trigger] values@[j]) matches Some(p)
                        && out@[j].email@ == p.0 && (match p.1 {
                        Some(n) => out@[j].name matches Some(m) && m@ == n,
                        None => out@[j].name is None,
                    })),
            decreases values@.len() - i,
        {
            match parse_contact(&values[i]) {
                Some(contact) => {
                    out.push(contact);
                },
                None => {
                    proof {
                        let w = spec_object_values(*self)->Some_0;
                        assert(w->Arr_0@[i as int] == values@[i as int]);
                    }
                    return Err(ModelError::ValueTypeMismatch);
                },
            }
            i = i + 1;
        }
        Ok(out)
    }
}

/// Read one contact out of its wire object, as [`spec_contact_of`]
/// describes it.
fn parse_contact(v: &WireValue) -> (r: Option<ContactOwned>)
    ensures
        match r {
            Some(c) => spec_contact_of(*v) matches Some(p) && c.email@ == p.0 && (match p.1 {
                Some(n) => c.name matches Some(m) && m@ == n,
                None => c.name is None,
            }),
            None => spec_contact_of(*v) is None,
        },
{
    if !matches!(*v, WireValue::Obj(_)) {
        return None;
    }
    let tag_ok: bool = match v.get("objectType") {
        Some(w) => match *w {
            WireValue::Str(ref tag) => *tag == "CONTACT".to_owned(),
            _ => false,
        },
        None => false,
    };
    if !tag_ok {
        return None;
    }
    let email: String = match v.get("email") {
        Some(w) => match *w {
            WireValue::Str(ref email) => email.clone(),
            _ => {
                return None;
            },
        },
        None => {
            return None;
        },
    };
    let name: Option<String> = match v.get("name") {
        None => None,
        Some(w) => match *w {
            WireValue::Null => None,
            WireValue::Str(ref name) => Some(name.clone()),
            _ => {
                return None;
            },
        },
    };
    Some(ContactOwned { email, name })
}

} // verus!
