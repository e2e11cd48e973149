use crate::models::wire::WireValue;
use vstd::prelude::*;

verus! {

/// One condition of a sheet filter: an operator applied to a column,
/// with the values the operator compares against.
#[derive(Debug)]
pub struct Criteria {
    pub column_id: u64,
    pub operator: String,
    pub values: Vec<WireValue>,
}

} // verus!
