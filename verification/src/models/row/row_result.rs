use crate::models::row::row::Row;
use vstd::prelude::*;

verus! {

/// The response returned when successfully *adding* rows to a sheet.
#[derive(Debug)]
pub struct RowResult<R = Row> {
    pub message: Message,
    pub result: Vec<R>,
    pub result_code: i64,
    pub version: Option<i64>,
    pub failed_items: Option<Vec<R>>,
}

/// The overall outcome of a row write.
#[derive(Debug, Clone, PartialEq)]
pub enum Message {
    Success,
    PartialSuccess,
}

} // verus!
