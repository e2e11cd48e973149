//! The sheet aggregate: columns, rows, and sheet metadata.

use crate::models::column::column::Column;
use crate::models::error::ModelError;
use crate::models::row::row::Row;
use crate::models::sheet::filter::Filter;
use crate::models::sheet::source::Source;
use crate::models::sheet::user_permissions::UserPermissions;
use crate::models::sheet::user_settings::UserSettings;
use crate::models::sheet::workspace::Workspace;
use crate::models::wire::WireValue;
use vstd::prelude::*;

verus! {

/// A sheet: the top-level tabular document, owning its columns and rows
/// by value.
#[derive(Debug)]
pub struct Sheet {
    pub id: u64,
    pub name: String,
    pub owner: Option<String>,
    pub owner_id: Option<u64>,
    pub rows: Vec<Row>,
    pub columns: Vec<Column>,
    pub total_row_count: u64,
    pub modified_at: String,
    pub access_level: String,
    pub created_at: String,
    pub permalink: String,
    pub source: Option<Source>,
    pub favorite: Option<bool>,
    pub filters: Option<Vec<Filter>>,
    pub version: Option<u64>,
    pub cell_image_upload_enabled: Option<bool>,
    pub dependencies_enabled: Option<bool>,
    pub effective_attachment_options: Vec<String>,
    /// The Gantt chart configuration, held as raw wire data: its
    /// floating-point fields sit outside this model, but nothing of the
    /// response is lost.
    pub gantt_config: Option<WireValue>,
    pub gantt_enabled: Option<bool>,
    pub has_summary_fields: Option<bool>,
    pub is_multi_picklist_enabled: Option<bool>,
    pub read_only: Option<bool>,
    pub resource_management_enabled: Option<bool>,
    pub resource_management_type: Option<String>,
    pub user_permissions: UserPermissions,
    pub user_settings: UserSettings,
    pub workspace: Option<Workspace>,
}

impl Default for Sheet {
    /// A blank sheet: no rows, no columns, empty metadata.
    fn default() -> (r: Self)
        ensures
            r.id == 0,
            r.name@ == Seq::<char>::empty(),
            r.owner is None,
            r.owner_id is None,
            r.rows@ == Seq::<Row>::empty(),
            r.columns@ == Seq::<Column>::empty(),
            r.total_row_count == 0,
            r.source is None,
            r.favorite is None,
            r.filters is None,
            r.version is None,
            r.gantt_config is None,
            r.workspace is None,
    {
        Self {
            id: 0,
            name: String::new(),
            owner: None,
            owner_id: None,
            rows: Vec::new(),
            columns: Vec::new(),
            total_row_count: 0,
            modified_at: String::new(),
            access_level: String::new(),
            created_at: String::new(),
            permalink: String::new(),
            source: None,
            favorite: None,
            filters: None,
            version: None,
            cell_image_upload_enabled: None,
            dependencies_enabled: None,
            effective_attachment_options: Vec::new(),
            gantt_config: None,
            gantt_enabled: None,
            has_summary_fields: None,
            is_multi_picklist_enabled: None,
            read_only: None,
            resource_management_enabled: None,
            resource_management_type: None,
            user_permissions: UserPermissions::default(),
            user_settings: UserSettings::default(),
            workspace: None,
        }
    }
}

/// The first row of `rows` carrying `row_id`.
pub open spec fn spec_find_row(rows: Seq<Row>, row_id: u64) -> Option<Row>
    decreases rows.len(),
{
    if rows.len() == 0 {
        None
    } else if rows[0].id == row_id {
        Some(rows[0])
    } else {
        spec_find_row(rows.drop_first(), row_id)
    }
}

impl Sheet {
    /// Retrieve a specified `Row` - for a given *row id* - from the
    /// `Sheet`.
    #[verifier::loop_isolation(false)]
    pub fn get_row_by_id(&self, row_id: u64) -> (r: Result<&Row, ModelError>)
        ensures
            match r {
                Ok(row) => spec_find_row(self.rows@, row_id) == Some(*row),
                Err(e) => spec_find_row(self.rows@, row_id) is None && e is NoMatch,
            },
    {
        let mut i: usize = 0;
        proof {
            assert(self.rows@.skip(0) =~= self.rows@);
        }
        while i < self.rows.len()
            invariant
                i <= self.rows@.len(),
                spec_find_row(self.rows@.skip(i as int), row_id) == spec_find_row(
                    self.rows@,
                    row_id,
                ),
            decreases self.rows@.len() - i,
        {
            proof {
                assert(self.rows@.skip(i as int)[0] == self.rows@[i as int]);
                assert(self.rows@.skip(i as int).drop_first() =~= self.rows@.skip(i as int + 1));
            }
            if self.rows[i].id == row_id {
                return Ok(&self.rows[i]);
            }
            i = i + 1;
        }
        Err(ModelError::NoMatch)
    }
}

} // verus!
