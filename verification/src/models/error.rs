//! Library-specific errors, including types and implementations.

use crate::utils::{spec_dec, u64_to_string};
use vstd::prelude::*;
use vstd::string::StringExecFns;

verus! {

/// An error raised by the in-memory model: lookups, typed accessors,
/// builders and queries. Every variant carries the identifier it failed
/// on, so a caller can build an actionable message.
#[derive(Debug, Clone, PartialEq)]
pub enum ModelError {
    /// The referenced column title is unknown to the column mapping.
    ColumnNotFound { title: String },
    /// The row holds no cell for an otherwise valid column id; the service
    /// may leave empty cells out entirely, so an absent cell is not the
    /// same as an empty one.
    CellAbsent { column_id: u64 },
    /// A typed accessor was called while another variant is active.
    ValueTypeMismatch,
    /// A wire value of a shape no cell value has: an array, an object, or
    /// an explicit null.
    InvalidWireValue,
    /// A row query found no satisfying row.
    NoMatch,
}

impl ModelError {
    /// The diagnostic text for the error.
    pub open spec fn spec_message(self) -> Seq<char> {
        match self {
            ModelError::ColumnNotFound { title } => "The column name `"@ + title@
                + "` does not exist in the sheet"@,
            ModelError::CellAbsent { column_id } => "No cell found for the column with id `"@
                + spec_dec(column_id as nat) + "`"@,
            ModelError::ValueTypeMismatch => "The cell value is not of the requested type"@,
            ModelError::InvalidWireValue => "The wire value is not a string, boolean, or number"@,
            ModelError::NoMatch => "No matching row for the condition"@,
        }
    }

    /// A caller-facing message naming the offending identifier.
    pub fn message(&self) -> (r: String)
        ensures
            r@ == self.spec_message(),
    {
        match *self {
            ModelError::ColumnNotFound { ref title } => {
                let mut s: String = "The column name `".to_owned();
                s.append(title.as_str());
                s.append("` does not exist in the sheet");
                s
            },
            ModelError::CellAbsent { column_id } => {
                let mut s: String = "No cell found for the column with id `".to_owned();
                let id_text = u64_to_string(column_id);
                s.append(id_text.as_str());
                s.append("`");
                s
            },
            ModelError::ValueTypeMismatch => "The cell value is not of the requested type".to_owned(),
            ModelError::InvalidWireValue => "The wire value is not a string, boolean, or number".to_owned(),
            ModelError::NoMatch => "No matching row for the condition".to_owned(),
        }
    }
}

/// `RequestError` is raised when the Smartsheet API responds with a
/// *non-* "OK" response: a status code between 400 and 600, indicating
/// either a client error or a server error.
///
/// # Note
///
/// The `error` and `message` fields are mutually-exclusive; when the
/// response data cannot be read as a [`SmartsheetError`], the `message`
/// field is populated with the raw response data instead.
#[derive(Debug, Clone, PartialEq)]
pub struct RequestError {
    pub status: u16,
    pub reason: String,
    pub message: Option<String>,
    pub error: Option<SmartsheetError>,
}

impl RequestError {
    /// Create a new `RequestError` object from a status code and reason.
    ///
    /// The `error` and `message` fields are mutually-exclusive, and so will
    /// both initially be unset.
    pub fn new(status: u16, reason: String) -> (r: Self)
        ensures
            r.status == status,
            r.reason == reason,
            r.message is None,
            r.error is None,
    {
        Self { status, reason, message: None, error: None }
    }
}

/// An error returned from the Smartsheet API, along with a custom error
/// code from the Smartsheet side.
#[derive(Debug, Clone, PartialEq)]
pub struct SmartsheetError {
    pub message: String,
    pub error_code: u16,
    pub ref_id: Option<String>,
}

} // verus!
