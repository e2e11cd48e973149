pub mod index_result;

pub use self::index_result::IndexResult;
