use vstd::prelude::*;

verus! {

/// What a sheet was created from: a dashboard, report, sheet, or
/// template.
#[derive(Debug, Clone)]
pub struct Source {
    pub id: u64,
    pub type_field: String,
}

} // verus!
