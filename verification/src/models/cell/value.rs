//! The scalar payload of a cell.

use crate::models::error::ModelError;
use crate::models::wire::{Number, WireValue};
use vstd::prelude::*;

verus! {

/// Represents the `value` attribute in the `Cell` struct definition.
///
/// On the wire this value is *untagged*: it travels as a bare string, a
/// bare boolean, or a bare number — depending on the cell type and the
/// data in the cell — and never as a wrapper object. An empty cell returns
/// no value.
#[derive(Debug, Clone)]
pub enum CellValue {
    Text(String),
    Boolean(bool),
    Numeric(Number),
}

/// Structural equality of cell values: the same variant with an equal
/// payload. Values of different variants are never equal; numbers
/// compare by their decimal representation, and for *canonical* numbers
/// — the only kind the constructors and the decoder produce — that is
/// equality of value, so the integer and floating wire spellings of one
/// number meet (see [`Number`] and `lemma_canonical_unique`). A
/// hand-built non-canonical `Number` compares by its raw fields.
pub open spec fn cell_value_eq(a: CellValue, b: CellValue) -> bool {
    match a {
        CellValue::Text(x) => b matches CellValue::Text(y) && x@ == y@,
        CellValue::Boolean(x) => b matches CellValue::Boolean(y) && x == y,
        CellValue::Numeric(x) => b matches CellValue::Numeric(y) && x == y,
    }
}

impl vstd::std_specs::cmp::PartialEqSpecImpl for CellValue {
    open spec fn obeys_eq_spec() -> bool {
        true
    }

    open spec fn eq_spec(&self, other: &CellValue) -> bool {
        cell_value_eq(*self, *other)
    }
}

impl PartialEq for CellValue {
    fn eq(&self, other: &CellValue) -> (r: bool) {
        match *self {
            CellValue::Text(ref x) => match *other {
                CellValue::Text(ref y) => *x == *y,
                _ => false,
            },
            CellValue::Boolean(x) => match *other {
                CellValue::Boolean(y) => x == y,
                _ => false,
            },
            CellValue::Numeric(x) => match *other {
                CellValue::Numeric(y) => x == y,
                _ => false,
            },
        }
    }
}

/// The wire value a cell value encodes to: the bare payload, no type tag.
pub open spec fn spec_encoded(cv: CellValue) -> WireValue {
    match cv {
        CellValue::Text(s) => WireValue::Str(s),
        CellValue::Boolean(b) => WireValue::Bool(b),
        CellValue::Numeric(n) => WireValue::Num(n),
    }
}

/// The cell value a wire value decodes to, selected by the wire type
/// alone: a string becomes `Text`, a boolean `Boolean`, a number
/// `Numeric`. Every other wire shape is rejected.
pub open spec fn spec_decoded(w: WireValue) -> Option<CellValue> {
    match w {
        WireValue::Str(s) => Some(CellValue::Text(s)),
        WireValue::Bool(b) => Some(CellValue::Boolean(b)),
        WireValue::Num(n) => Some(CellValue::Numeric(n)),
        _ => None,
    }
}

/// Encoding a cell value and decoding the result yields the value back:
/// the untagged wire form loses nothing.
pub proof fn lemma_value_round_trip(v: CellValue)
    ensures
        spec_decoded(spec_encoded(v)) == Some(v),
{
}

impl CellValue {
    /// Encode to the untyped wire form: the bare underlying primitive.
    pub fn encode(&self) -> (r: WireValue)
        ensures
            r == spec_encoded(*self),
    {
        match *self {
            CellValue::Text(ref s) => WireValue::Str(s.clone()),
            CellValue::Boolean(b) => WireValue::Bool(b),
            CellValue::Numeric(n) => WireValue::Num(n),
        }
    }

    /// Decode from the untyped wire form, inferring the variant from the
    /// wire type; an array, object or null is a decode error.
    pub fn decode(value: &WireValue) -> (r: Result<CellValue, ModelError>)
        ensures
            match r {
                Ok(cv) => spec_decoded(*value) == Some(cv),
                Err(e) => spec_decoded(*value) is None && e is InvalidWireValue,
            },
    {
        match *value {
            WireValue::Str(ref s) => Ok(CellValue::Text(s.clone())),
            WireValue::Bool(b) => Ok(CellValue::Boolean(b)),
            WireValue::Num(n) => Ok(CellValue::Numeric(n)),
            _ => Err(ModelError::InvalidWireValue),
        }
    }

    /// The `Text` payload, or a type-mismatch error.
    pub fn as_str(&self) -> (r: Result<&str, ModelError>)
        ensures
            match *self {
                CellValue::Text(s) => r matches Ok(v) && v@ == s@,
                _ => r matches Err(e) && e is ValueTypeMismatch,
            },
    {
        if let CellValue::Text(ref value) = *self {
            Ok(value.as_str())
        } else {
            Err(ModelError::ValueTypeMismatch)
        }
    }

    /// The `Text` payload, or `None`.
    pub fn as_str_safe(&self) -> (r: Option<&str>)
        ensures
            match *self {
                CellValue::Text(s) => r matches Some(v) && v@ == s@,
                _ => r is None,
            },
    {
        if let CellValue::Text(ref value) = *self {
            Some(value.as_str())
        } else {
            None
        }
    }

    /// The `Numeric` payload, or a type-mismatch error.
    pub fn as_number(&self) -> (r: Result<&Number, ModelError>)
        ensures
            match *self {
                CellValue::Numeric(n) => r matches Ok(v) && *v == n,
                _ => r matches Err(e) && e is ValueTypeMismatch,
            },
    {
        if let CellValue::Numeric(ref value) = *self {
            Ok(value)
        } else {
            Err(ModelError::ValueTypeMismatch)
        }
    }

    /// The numeric payload as an unsigned integer; an error when another
    /// variant is active, as when the number is negative, fractional, or
    /// too large for a `u64`.
    pub fn as_u64(&self) -> (r: Result<u64, ModelError>)
        ensures
            match *self {
                CellValue::Numeric(n) => match n.as_u64_spec() {
                    Some(v) => r matches Ok(u) && u == v,
                    None => r matches Err(e) && e is ValueTypeMismatch,
                },
                _ => r matches Err(e) && e is ValueTypeMismatch,
            },
    {
        match self.as_number() {
            Ok(number) => match number.as_u64() {
                Some(value) => Ok(value),
                None => Err(ModelError::ValueTypeMismatch),
            },
            Err(e) => Err(e),
        }
    }

    /// The `Boolean` payload, or a type-mismatch error.
    pub fn as_bool(&self) -> (r: Result<bool, ModelError>)
        ensures
            match *self {
                CellValue::Boolean(b) => r == Ok::<bool, ModelError>(b),
                _ => r matches Err(e) && e is ValueTypeMismatch,
            },
    {
        if let CellValue::Boolean(v) = *self {
            Ok(v)
        } else {
            Err(ModelError::ValueTypeMismatch)
        }
    }

    /// The `Text` value for a borrowed string.
    pub fn from_text(s: &str) -> (r: CellValue)
        ensures
            r matches CellValue::Text(t) && t@ == s@,
    {
        CellValue::Text(s.to_owned())
    }

    /// The `Text` value for a single character.
    pub fn from_char(c: char) -> (r: CellValue)
        ensures
            r matches CellValue::Text(t) && t@ == seq![c],
    {
        let mut s = String::new();
        crate::utils::push_char(&mut s, c);
        proof {
            assert(s@ =~= seq![c]);
        }
        CellValue::Text(s)
    }

    /// The `Text` value owning the given string.
    pub fn from_string(s: String) -> (r: CellValue)
        ensures
            r == CellValue::Text(s),
    {
        CellValue::Text(s)
    }

    /// The `Boolean` value for a native boolean.
    pub fn from_bool(b: bool) -> (r: CellValue)
        ensures
            r == CellValue::Boolean(b),
    {
        CellValue::Boolean(b)
    }

    /// The `Numeric` value for an unsigned integer, in canonical form.
    pub fn from_u64(v: u64) -> (r: CellValue)
        ensures
            r == CellValue::Numeric(Number::spec_norm(false, v, 0)),
    {
        CellValue::Numeric(Number::from_u64(v))
    }

    /// The `Numeric` value for a signed integer, in canonical form.
    pub fn from_i64(v: i64) -> (r: CellValue)
        ensures
            r == CellValue::Numeric(
                Number::spec_norm(v < 0, (if v < 0 {
                    -(v as int)
                } else {
                    v as int
                }) as u64, 0),
            ),
    {
        CellValue::Numeric(Number::from_i64(v))
    }

    /// The `Numeric` value for a number already in hand.
    pub fn from_number(n: Number) -> (r: CellValue)
        ensures
            r == CellValue::Numeric(n),
    {
        CellValue::Numeric(n)
    }
}

} // verus!
