use crate::models::params::get_row::{RowExcludeFlags, RowIncludeFlags};
use crate::models::params::EnumStr;
use vstd::prelude::*;

verus! {

/// Include flags for a *Get Sheet* request.
#[derive(Debug)]
pub enum SheetIncludeFlags {
    /// A row-level include flag, applied sheet-wide.
    Base(RowIncludeFlags),
    /// Includes the cross-sheet references.
    CrossSheetReferences,
    /// Includes the type of filter, the operators used, and the criteria.
    FilterDefinitions,
    /// Includes Gantt chart details.
    GanttConfig,
    /// Includes the workspace and the owner's email address and user Id.
    OwnerInfo,
    /// Includes metadata for proofs at the row level.
    Proofs,
    /// Adds the `Source` object indicating what the sheet was created from.
    Source,
}

impl EnumStr for SheetIncludeFlags {
    open spec fn str_spec(&self) -> Seq<char> {
        match self {
            SheetIncludeFlags::Base(flags) => flags.str_spec(),
            SheetIncludeFlags::CrossSheetReferences => "crossSheetReferences"@,
            SheetIncludeFlags::FilterDefinitions => "filterDefinitions"@,
            SheetIncludeFlags::GanttConfig => "ganttConfig"@,
            SheetIncludeFlags::OwnerInfo => "ownerInfo"@,
            SheetIncludeFlags::Proofs => "proofs"@,
            SheetIncludeFlags::Source => "source"@,
        }
    }

    fn as_str(&self) -> (r: &'static str) {
        match self {
            SheetIncludeFlags::Base(flags) => flags.as_str(),
            SheetIncludeFlags::CrossSheetReferences => "crossSheetReferences",
            SheetIncludeFlags::FilterDefinitions => "filterDefinitions",
            SheetIncludeFlags::GanttConfig => "ganttConfig",
            SheetIncludeFlags::OwnerInfo => "ownerInfo",
            SheetIncludeFlags::Proofs => "proofs",
            SheetIncludeFlags::Source => "source",
        }
    }
}

/// Exclude flags for a *Get Sheet* request.
#[derive(Debug)]
pub enum SheetExcludeFlags {
    /// A row-level exclude flag, applied sheet-wide.
    Base(RowExcludeFlags),
    /// Excludes filtered-out rows from the response payload.
    FilteredOutRows,
}

impl EnumStr for SheetExcludeFlags {
    open spec fn str_spec(&self) -> Seq<char> {
        match self {
            SheetExcludeFlags::Base(flags) => flags.str_spec(),
            SheetExcludeFlags::FilteredOutRows => "filteredOutRows"@,
        }
    }

    fn as_str(&self) -> (r: &'static str) {
        match self {
            SheetExcludeFlags::Base(flags) => flags.as_str(),
            SheetExcludeFlags::FilteredOutRows => "filteredOutRows",
        }
    }
}

} // verus!
