use crate::models::params::EnumStr;
use vstd::prelude::*;

verus! {

/// Include flags for a *List Sheets* request.
#[derive(Debug)]
pub enum ListSheetIncludeFlags {
    OwnerInfo,
    SheetVersion,
    Source,
}

impl EnumStr for ListSheetIncludeFlags {
    open spec fn str_spec(&self) -> Seq<char> {
        match self {
            ListSheetIncludeFlags::OwnerInfo => "ownerInfo"@,
            ListSheetIncludeFlags::SheetVersion => "sheetVersion"@,
            ListSheetIncludeFlags::Source => "source"@,
        }
    }

    fn as_str(&self) -> (r: &'static str) {
        match self {
            ListSheetIncludeFlags::OwnerInfo => "ownerInfo",
            ListSheetIncludeFlags::SheetVersion => "sheetVersion",
            ListSheetIncludeFlags::Source => "source",
        }
    }
}

} // verus!
