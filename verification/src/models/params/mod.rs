pub mod get_column;
pub mod get_row;
pub mod get_sheet;
pub mod level;
pub mod list_sheets;

pub use self::get_column::ColumnIncludeFlags;
pub use self::get_row::{RowExcludeFlags, RowIncludeFlags};
pub use self::get_sheet::{SheetExcludeFlags, SheetIncludeFlags};
pub use self::level::Level;
pub use self::list_sheets::ListSheetIncludeFlags;

use vstd::prelude::*;

verus! {

/// Allows enums to render themselves as the string value they take in a
/// query parameter.
pub trait EnumStr {
    /// The characters of the rendered value.
    spec fn str_spec(&self) -> Seq<char>;

    /// The rendered value itself.
    fn as_str(&self) -> (r: &'static str)
        ensures
            r@ == self.str_spec(),
    ;
}

} // verus!
