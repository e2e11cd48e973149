//! The models for interacting with the Smartsheet API.

pub mod cell;
pub mod column;
pub mod error;
pub mod index;
pub mod params;
pub mod row;
pub mod sheet;
pub mod wire;

pub use self::cell::{
    cell_value_eq, cell_write_obj, hyperlink_write_obj, lemma_value_round_trip, spec_addrs_str, spec_decoded, spec_encoded,
    spec_contact_of, spec_name_addr, spec_object_values, Cell, CellValue, Contact, ContactEmailAddrs, ContactOwned, Decision, Hyperlink,
    lemma_contact_obj_parses, spec_blank_rest, spec_contact_obj, spec_multi_contact_obj,
    spec_multi_picklist_obj, CellBuilder,
    Image, LightPicker, ObjectType,
};
pub use self::params::{
    ColumnIncludeFlags, EnumStr, Level, ListSheetIncludeFlags, RowExcludeFlags, RowIncludeFlags,
    SheetExcludeFlags, SheetIncludeFlags,
};
pub use self::column::{Column, ContactOption};
pub use self::error::{ModelError, RequestError, SmartsheetError};
pub use self::row::{
    row_write_obj, spec_find_cell, AccessLevel, Attachment, AttachmentMeta, AttachmentSubType,
    AttachmentType, Discussion, IndentEnabled, Message, ParentType, Row, RowResult, User,
};
pub use self::index::IndexResult;
pub use self::sheet::{
    spec_find_row, Criteria, Filter, Heading, Query, Sheet, Source, UserPermissions, UserSettings,
    Workspace,
};
pub use self::wire::{
    all_ascii_digits, digits_int, is_ascii_digit, lemma_canonical_unique,
    lemma_norm_keeps_integer, pow10, spec_get, Number, WireValue,
};
