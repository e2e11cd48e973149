use crate::models::params::EnumStr;
use vstd::prelude::*;

verus! {

/// Represents a value for the `objectType` field within a structured
/// `objectValue` payload.
#[derive(Debug)]
pub enum ObjectType {
    AbstractDateTime,
    Contact,
    Date,
    DateTime,
    Duration,
    MultiContact,
    MultiPicklist,
    PredecessorList,
}

impl EnumStr for ObjectType {
    open spec fn str_spec(&self) -> Seq<char> {
        match self {
            ObjectType::AbstractDateTime => "ABSTRACT_DATETIME"@,
            ObjectType::Contact => "CONTACT"@,
            ObjectType::Date => "DATE"@,
            ObjectType::DateTime => "DATETIME"@,
            ObjectType::Duration => "DURATION"@,
            ObjectType::MultiContact => "MULTI_CONTACT"@,
            ObjectType::MultiPicklist => "MULTI_PICKLIST"@,
            ObjectType::PredecessorList => "PREDECESSOR_LIST"@,
        }
    }

    fn as_str(&self) -> (r: &'static str) {
        match self {
            ObjectType::AbstractDateTime => "ABSTRACT_DATETIME",
            ObjectType::Contact => "CONTACT",
            ObjectType::Date => "DATE",
            ObjectType::DateTime => "DATETIME",
            ObjectType::Duration => "DURATION",
            ObjectType::MultiContact => "MULTI_CONTACT",
            ObjectType::MultiPicklist => "MULTI_PICKLIST",
            ObjectType::PredecessorList => "PREDECESSOR_LIST",
        }
    }
}

} // verus!
