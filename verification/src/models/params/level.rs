use crate::models::params::EnumStr;
use vstd::prelude::*;

verus! {

/// The `level` query parameter: how multi-contact or multi-picklist data
/// is returned.
#[derive(Copy, Clone, Debug)]
pub enum Level {
    /// Backwards-compatible text format (the default).
    Text,
    /// Multi-contact data.
    MultiContact,
    /// Multi-picklist data.
    MultiPicklist,
}

impl EnumStr for Level {
    open spec fn str_spec(&self) -> Seq<char> {
        match self {
            Level::Text => "0"@,
            Level::MultiContact => "1"@,
            Level::MultiPicklist => "2"@,
        }
    }

    fn as_str(&self) -> (r: &'static str) {
        match self {
            Level::Text => "0",
            Level::MultiContact => "1",
            Level::MultiPicklist => "2",
        }
    }
}

} // verus!
