use crate::models::params::EnumStr;
use vstd::prelude::*;

verus! {

/// Include flags for a *Get Row* request.
#[derive(Debug)]
pub enum RowIncludeFlags {
    /// Includes the row `attachments` array.
    Attachments,
    /// Adds a `columns` array that specifies all of the columns for the
    /// sheet, giving the full context of the cells in the row.
    Columns,
    /// Includes the `columnType` attribute in the row's cells.
    ColumnType,
    /// Includes the row `discussions` array.
    Discussions,
    /// Includes the `filteredOut` attribute on the row.
    Filters,
    /// Includes the `format` attribute on the row and its cells.
    Format,
    /// Includes the `objectValue` attribute on cells containing values.
    ObjectValue,
    /// Includes a direct link to the row in the Smartsheet application.
    RowPermalink,
    /// The superseded spelling of [`RowIncludeFlags::WriterInfo`].
    RowWriterInfo,
    /// Includes `createdBy` and `modifiedBy` attributes on the row.
    WriterInfo,
}

impl EnumStr for RowIncludeFlags {
    open spec fn str_spec(&self) -> Seq<char> {
        match self {
            RowIncludeFlags::Attachments => "attachments"@,
            RowIncludeFlags::Columns => "columns"@,
            RowIncludeFlags::ColumnType => "columnType"@,
            RowIncludeFlags::Discussions => "discussions"@,
            RowIncludeFlags::Filters => "filters"@,
            RowIncludeFlags::Format => "format"@,
            RowIncludeFlags::ObjectValue => "objectValue"@,
            RowIncludeFlags::RowPermalink => "rowPermalink"@,
            RowIncludeFlags::RowWriterInfo => "rowWriterInfo"@,
            RowIncludeFlags::WriterInfo => "writerInfo"@,
        }
    }

    fn as_str(&self) -> (r: &'static str) {
        match self {
            RowIncludeFlags::Attachments => "attachments",
            RowIncludeFlags::Columns => "columns",
            RowIncludeFlags::ColumnType => "columnType",
            RowIncludeFlags::Discussions => "discussions",
            RowIncludeFlags::Filters => "filters",
            RowIncludeFlags::Format => "format",
            RowIncludeFlags::ObjectValue => "objectValue",
            RowIncludeFlags::RowPermalink => "rowPermalink",
            RowIncludeFlags::RowWriterInfo => "rowWriterInfo",
            RowIncludeFlags::WriterInfo => "writerInfo",
        }
    }
}

/// Exclude flags for a *Get Row* request.
#[derive(Debug)]
pub enum RowExcludeFlags {
    /// Excludes the cell-level detail of `linkInFromCell` objects.
    LinkInFromCellDetails,
    /// Excludes the cell-level detail of `linksOutToCells` objects.
    LinkOutToCellDetails,
    /// Excludes cells that have never contained any data.
    NonExistentCells,
}

impl EnumStr for RowExcludeFlags {
    open spec fn str_spec(&self) -> Seq<char> {
        match self {
            RowExcludeFlags::LinkInFromCellDetails => "linkInFromCellDetails"@,
            RowExcludeFlags::LinkOutToCellDetails => "linksOutToCellsDetails"@,
            RowExcludeFlags::NonExistentCells => "nonexistentCells"@,
        }
    }

    fn as_str(&self) -> (r: &'static str) {
        match self {
            RowExcludeFlags::LinkInFromCellDetails => "linkInFromCellDetails",
            RowExcludeFlags::LinkOutToCellDetails => "linksOutToCellsDetails",
            RowExcludeFlags::NonExistentCells => "nonexistentCells",
        }
    }
}

} // verus!
