//! A typed client library for the Smartsheet API v2.
//!
//! The heart of the library is the cell-value model and the row/column
//! lookup and query subsystem: a tagged cell value with an untagged wire
//! encoding, a bidirectional column title/id mapping, builders for the
//! distinct cell shapes the service accepts, and a small query engine that
//! scans rows under an equality or inequality condition.
//!
//! The HTTP transport itself lives outside this crate; the library prepares
//! request URLs and bodies and interprets already-fetched data.

pub mod api;
pub mod auth;
pub mod builders;
pub mod constants;
pub mod helpers;
pub mod models;
pub mod status;
pub mod utils;

pub use helpers::{CellGetter, ColumnMapper, RowGetter};
pub use models::cell::cell_builder::CellBuilder;

