use crate::models::sheet::query::Query;
use vstd::prelude::*;

verus! {

/// A saved filter on a sheet.
#[derive(Debug)]
pub struct Filter {
    pub filter_type: String,
    pub id: i64,
    pub name: String,
    pub query: Query,
    pub version: Option<i64>,
}

} // verus!
