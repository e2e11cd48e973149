use crate::models::params::EnumStr;
use vstd::prelude::*;

verus! {

/// Include flags for a *Get Column* or *List Columns* request.
#[derive(Debug)]
pub enum ColumnIncludeFlags {
    Filters,
}

impl EnumStr for ColumnIncludeFlags {
    open spec fn str_spec(&self) -> Seq<char> {
        match self {
            ColumnIncludeFlags::Filters => "filters"@,
        }
    }

    fn as_str(&self) -> (r: &'static str) {
        match self {
            ColumnIncludeFlags::Filters => "filters",
        }
    }
}

} // verus!
