use crate::models::sheet::criteria::Criteria;
use vstd::prelude::*;

verus! {

/// The conditions of a sheet filter and how they combine.
#[derive(Debug)]
pub struct Query {
    pub criteria: Vec<Criteria>,
    pub include_parent: bool,
    pub operator: String,
}

} // verus!
