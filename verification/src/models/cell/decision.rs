use crate::models::params::EnumStr;
use vstd::prelude::*;

verus! {

/// **Symbol Cell** - Represents a *Decision* dropdown cell, with its fixed
/// vocabulary of option names.
#[derive(Debug)]
pub enum Decision {
    Yes,
    Hold,
    No,
}

impl EnumStr for Decision {
    open spec fn str_spec(&self) -> Seq<char> {
        match self {
            Decision::Yes => "Yes"@,
            Decision::Hold => "Hold"@,
            Decision::No => "No"@,
        }
    }

    fn as_str(&self) -> (r: &'static str) {
        match self {
            Decision::Yes => "Yes",
            Decision::Hold => "Hold",
            Decision::No => "No",
        }
    }
}

} // verus!
