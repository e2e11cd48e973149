use vstd::prelude::*;

verus! {

/// **Index Result** - The object returned for GET operations against
/// index endpoints, with the metadata needed to page through large data
/// sets.
#[derive(Debug)]
pub struct IndexResult<T> {
    /// The data page itself: sheets, or columns.
    pub data: Vec<T>,
    pub page_number: u64,
    /// The page size; omitted in some responses, and then zero.
    pub page_size: u64,
    pub total_count: u64,
    pub total_pages: u64,
}

} // verus!
