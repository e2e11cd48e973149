//! The row entity: an ordered sequence of cells plus row metadata.

use crate::models::cell::cell::{cell_write_obj, Cell};
use crate::models::column::column::Column;
use crate::models::error::ModelError;
use crate::models::row::access_level::AccessLevel;
use crate::models::row::attachment::Attachment;
use crate::models::row::discussion::Discussion;
use crate::models::row::indent::IndentEnabled;
use crate::models::row::user::User;
use crate::models::wire::{Number, WireValue};
use vstd::prelude::*;
use vstd::string::StringExecFns;

verus! {

/// One row of a sheet.
///
/// An `id` of zero is the "new, not yet assigned" sentinel: such an id is
/// left out of a serialized write request, so the one type serves both
/// new-row and existing-row requests. The location-specifier fields
/// (`sibling_id`, `parent_id`, `to_top`, `to_bottom`, `indent`,
/// `outdent`) are write-only placement instructions; the service treats
/// them as mutually exclusive, which the caller is responsible for.
#[derive(Debug)]
pub struct Row {
    /// Row Id; `0` stands for "not yet assigned".
    pub id: u64,
    /// Parent sheet Id; response-only.
    pub sheet_id: Option<u64>,
    /// The requesting user's access level; response-only.
    pub access_level: Option<AccessLevel>,
    /// Attachments on the row; response-only.
    pub attachments: Option<Vec<Attachment>>,
    /// Cells belonging to the row. The order is stable but carries no
    /// meaning of its own.
    pub cells: Vec<Cell>,
    /// Columns of the row; response-only.
    pub columns: Vec<Column>,
    /// This row's conditional format; response-only.
    pub conditional_format: Option<String>,
    /// Creation timestamp; response-only.
    pub created_at: String,
    /// The creator of this row; response-only.
    pub created_by: Option<User>,
    /// Discussions on the row; response-only.
    pub discussions: Option<Vec<Discussion>>,
    /// Whether the row is expanded or collapsed.
    pub expanded: Option<bool>,
    /// Whether the row is filtered out by a column filter; response-only.
    pub filtered_out: Option<bool>,
    /// Format descriptor.
    pub format: Option<String>,
    /// Whether this row is in the critical path; response-only.
    pub in_critical_path: Option<bool>,
    /// Whether the row is locked.
    pub locked: Option<bool>,
    /// Whether the row is locked for the requesting user; response-only.
    pub locked_for_user: Option<bool>,
    /// Modification timestamp; response-only.
    pub modified_at: String,
    /// The last person to modify this row; response-only.
    pub modified_by: Option<User>,
    /// A direct link to the row; response-only.
    pub permalink: Option<String>,
    /// Row number within the sheet; response-only.
    pub row_number: u64,
    /// Sheet version number; response-only.
    pub version: Option<u64>,
    /// Sibling row Id; also a location specifier on writes.
    pub sibling_id: Option<u64>,
    /// Parent row Id; a location specifier, write-only.
    pub parent_id: Option<u64>,
    /// Location specifier: top of the sheet; write-only.
    pub to_top: Option<bool>,
    /// Location specifier: bottom of the sheet; write-only.
    pub to_bottom: Option<bool>,
    /// Location specifier: indent one level; write-only.
    pub indent: Option<IndentEnabled>,
    /// Location specifier: outdent one level; write-only.
    pub outdent: Option<IndentEnabled>,
}

impl Default for Row {
    /// A blank, unassigned row: the id sentinel, no cells, and nothing
    /// else set.
    fn default() -> (r: Self)
        ensures
            r.id == 0,
            r.sheet_id is None,
            r.access_level is None,
            r.attachments is None,
            r.cells@ == Seq::<Cell>::empty(),
            r.columns@ == Seq::<Column>::empty(),
            r.conditional_format is None,
            r.created_at@ == Seq::<char>::empty(),
            r.created_by is None,
            r.discussions is None,
            r.expanded is None,
            r.filtered_out is None,
            r.format is None,
            r.in_critical_path is None,
            r.locked is None,
            r.locked_for_user is None,
            r.modified_at@ == Seq::<char>::empty(),
            r.modified_by is None,
            r.permalink is None,
            r.row_number == 0,
            r.version is None,
            r.sibling_id is None,
            r.parent_id is None,
            r.to_top is None,
            r.to_bottom is None,
            r.indent is None,
            r.outdent is None,
    {
        Self {
            id: 0,
            sheet_id: None,
            access_level: None,
            attachments: None,
            cells: Vec::new(),
            columns: Vec::new(),
            conditional_format: None,
            created_at: String::new(),
            created_by: None,
            discussions: None,
            expanded: None,
            filtered_out: None,
            format: None,
            in_critical_path: None,
            locked: None,
            locked_for_user: None,
            modified_at: String::new(),
            modified_by: None,
            permalink: None,
            row_number: 0,
            version: None,
            sibling_id: None,
            parent_id: None,
            to_top: None,
            to_bottom: None,
            indent: None,
            outdent: None,
        }
    }
}

/// The first cell of `cells` sitting in the column with `column_id`.
pub open spec fn spec_find_cell(cells: Seq<Cell>, column_id: u64) -> Option<Cell>
    decreases cells.len(),
{
    if cells.len() == 0 {
        None
    } else if cells[0].column_id == column_id {
        Some(cells[0])
    } else {
        spec_find_cell(cells.drop_first(), column_id)
    }
}

impl Row {
    /// Retrieve a specified `Cell` - for a given *column id* - from the
    /// `Row`. The sheet may leave empty cells out entirely, so a known
    /// column can be absent here: that is the `CellAbsent` error, not a
    /// default cell.
    #[verifier::loop_isolation(false)]
    pub fn get_cell_by_id(&self, column_id: u64) -> (r: Result<&Cell, ModelError>)
        ensures
            match r {
                Ok(c) => spec_find_cell(self.cells@, column_id) == Some(*c),
                Err(e) => {
                    &&& spec_find_cell(self.cells@, column_id) is None
                    &&& e matches ModelError::CellAbsent { column_id: cid } && cid == column_id
                },
            },
    {
        let mut i: usize = 0;
        proof {
            assert(self.cells@.skip(0) =~= self.cells@);
        }
        while i < self.cells.len()
            invariant
                i <= self.cells@.len(),
                spec_find_cell(self.cells@.skip(i as int), column_id) == spec_find_cell(
                    self.cells@,
                    column_id,
                ),
            decreases self.cells@.len() - i,
        {
            proof {
                assert(self.cells@.skip(i as int)[0] == self.cells@[i as int]);
                assert(self.cells@.skip(i as int).drop_first() =~= self.cells@.skip(i as int + 1));
            }
            if self.cells[i].column_id == column_id {
                return Ok(&self.cells[i]);
            }
            i = i + 1;
        }
        Err(ModelError::CellAbsent { column_id })
    }
}

/// The outbound wire object for a row: the id only when it is assigned,
/// the cells as their own write projections, then whichever of the
/// writable attributes and location specifiers is set, in struct order —
/// and none of the response-only metadata.
pub open spec fn row_write_obj(r: Row, w: WireValue) -> bool {
    &&& w is Obj
    &&& {
        let fs = w->Obj_0@;
        let has_id: int = if r.id != 0 {
            1
        } else {
            0
        };
        let i_expanded: int = has_id + 1;
        let i_format: int = i_expanded + (if r.expanded is Some {
            1int
        } else {
            0
        });
        let i_locked: int = i_format + (if r.format is Some {
            1int
        } else {
            0
        });
        let i_sibling: int = i_locked + (if r.locked is Some {
            1int
        } else {
            0
        });
        let i_parent: int = i_sibling + (if r.sibling_id is Some {
            1int
        } else {
            0
        });
        let i_to_top: int = i_parent + (if r.parent_id is Some {
            1int
        } else {
            0
        });
        let i_to_bottom: int = i_to_top + (if r.to_top is Some {
            1int
        } else {
            0
        });
        let i_indent: int = i_to_bottom + (if r.to_bottom is Some {
            1int
        } else {
            0
        });
        let i_outdent: int = i_indent + (if r.indent is Some {
            1int
        } else {
            0
        });
        &&& fs.len() == i_outdent + (if r.outdent is Some {
            1int
        } else {
            0
        })
        &&& (r.id != 0 ==> fs[0].0@ == "id"@ && fs[0].1 == WireValue::Num(
            Number::spec_norm(false, r.id, 0),
        ))
        &&& fs[has_id].0@ == "cells"@
        &&& fs[has_id].1 matches WireValue::Arr(cells) && cells@.len() == r.cells@.len() && (forall|
            i: int,
        |
            0 <= i < cells@.len() ==> cell_write_obj(r.cells@[i], #[trigger] cells@[i]))
        &&& (r.expanded matches Some(b) ==> (fs[i_expanded].0@ == "expanded"@ && fs[i_expanded].1
            == WireValue::Bool(b)))
        &&& (r.format matches Some(f) ==> {
            &&& fs[i_format].0@ == "format"@
            &&& fs[i_format].1 matches WireValue::Str(s) && s@ == f@
        })
        &&& (r.locked matches Some(b) ==> (fs[i_locked].0@ == "locked"@ && fs[i_locked].1
            == WireValue::Bool(b)))
        &&& (r.sibling_id matches Some(id) ==> (fs[i_sibling].0@ == "siblingId"@ && fs[i_sibling].1
            == WireValue::Num(Number::spec_norm(false, id, 0))))
        &&& (r.parent_id matches Some(id) ==> (fs[i_parent].0@ == "parentId"@ && fs[i_parent].1
            == WireValue::Num(Number::spec_norm(false, id, 0))))
        &&& (r.to_top matches Some(b) ==> (fs[i_to_top].0@ == "toTop"@ && fs[i_to_top].1
            == WireValue::Bool(b)))
        &&& (r.to_bottom matches Some(b) ==> (fs[i_to_bottom].0@ == "toBottom"@ && fs[i_to_bottom].1
            == WireValue::Bool(b)))
        &&& (r.indent is Some ==> (fs[i_indent].0@ == "indent"@ && fs[i_indent].1 == WireValue::Num(
            Number::spec_norm(false, 1, 0),
        )))
        &&& (r.outdent is Some ==> (fs[i_outdent].0@ == "outdent"@ && fs[i_outdent].1
            == WireValue::Num(Number::spec_norm(false, 1, 0))))
    }
}

/// Append the writable row attributes and the first location
/// specifiers, each only when set, in struct order.
fn push_row_attrs(
    fields: &mut Vec<(String, WireValue)>,
    expanded: Option<bool>,
    format: Option<String>,
    locked: Option<bool>,
    sibling_id: Option<u64>,
    parent_id: Option<u64>,
)
    ensures
        ({
            let base = old(fields)@.len() as int;
            let i_format: int = base + (if expanded is Some { 1int } else { 0 });
            let i_locked: int = i_format + (if format is Some { 1int } else { 0 });
            let i_sibling: int = i_locked + (if locked is Some { 1int } else { 0 });
            let i_parent: int = i_sibling + (if sibling_id is Some { 1int } else { 0 });
            let fs = final(fields)@;
            &&& fs.len() == i_parent + (if parent_id is Some { 1int } else { 0 })
            &&& forall|j: int| 0 <= j < base ==> fs[j] == old(fields)@[j]
            &&& (expanded matches Some(b) ==> (fs[base].0@ == "expanded"@ && fs[base].1
                == WireValue::Bool(b)))
            &&& (format matches Some(f) ==> {
                &&& fs[i_format].0@ == "format"@
                &&& fs[i_format].1 matches WireValue::Str(s) && s@ == f@
            })
            &&& (locked matches Some(b) ==> (fs[i_locked].0@ == "locked"@ && fs[i_locked].1
                == WireValue::Bool(b)))
            &&& (sibling_id matches Some(id) ==> (fs[i_sibling].0@ == "siblingId"@ && fs[i_sibling].1
                == WireValue::Num(Number::spec_norm(false, id, 0))))
            &&& (parent_id matches Some(id) ==> (fs[i_parent].0@ == "parentId"@ && fs[i_parent].1
                == WireValue::Num(Number::spec_norm(false, id, 0))))
        }),
{
    if let Some(b) = expanded {
        fields.push(("expanded".to_owned(), WireValue::Bool(b)));
    }
    if let Some(f) = format {
        fields.push(("format".to_owned(), WireValue::Str(f)));
    }
    if let Some(b) = locked {
        fields.push(("locked".to_owned(), WireValue::Bool(b)));
    }
    if let Some(sid) = sibling_id {
        fields.push(("siblingId".to_owned(), WireValue::Num(Number::from_u64(sid))));
    }
    if let Some(pid) = parent_id {
        fields.push(("parentId".to_owned(), WireValue::Num(Number::from_u64(pid))));
    }
}

/// Append the remaining location specifiers, each only when set, in
/// struct order.
fn push_row_placement(
    fields: &mut Vec<(String, WireValue)>,
    to_top: Option<bool>,
    to_bottom: Option<bool>,
    indent: Option<IndentEnabled>,
    outdent: Option<IndentEnabled>,
)
    ensures
        ({
            let base = old(fields)@.len() as int;
            let i_to_bottom: int = base + (if to_top is Some { 1int } else { 0 });
            let i_indent: int = i_to_bottom + (if to_bottom is Some { 1int } else { 0 });
            let i_outdent: int = i_indent + (if indent is Some { 1int } else { 0 });
            let fs = final(fields)@;
            &&& fs.len() == i_outdent + (if outdent is Some { 1int } else { 0 })
            &&& forall|j: int| 0 <= j < base ==> fs[j] == old(fields)@[j]
            &&& (to_top matches Some(b) ==> (fs[base].0@ == "toTop"@ && fs[base].1
                == WireValue::Bool(b)))
            &&& (to_bottom matches Some(b) ==> (fs[i_to_bottom].0@ == "toBottom"@ && fs[i_to_bottom].1
                == WireValue::Bool(b)))
            &&& (indent is Some ==> (fs[i_indent].0@ == "indent"@ && fs[i_indent].1
                == WireValue::Num(Number::spec_norm(false, 1, 0))))
            &&& (outdent is Some ==> (fs[i_outdent].0@ == "outdent"@ && fs[i_outdent].1
                == WireValue::Num(Number::spec_norm(false, 1, 0))))
        }),
{
    if let Some(b) = to_top {
        fields.push(("toTop".to_owned(), WireValue::Bool(b)));
    }
    if let Some(b) = to_bottom {
        fields.push(("toBottom".to_owned(), WireValue::Bool(b)));
    }
    if indent.is_some() {
        fields.push(("indent".to_owned(), WireValue::Num(Number::from_u64(1))));
    }
    if outdent.is_some() {
        fields.push(("outdent".to_owned(), WireValue::Num(Number::from_u64(1))));
    }
}

impl Row {
    /// The outbound wire object for this row, as [`row_write_obj`] pins
    /// it down; an unassigned id is omitted entirely.
    #[verifier::loop_isolation(false)]
    #[verifier::rlimit(50)]
    pub fn into_write_value(self) -> (w: WireValue)
        ensures
            row_write_obj(self, w),
    {
        let Row {
            id,
            mut cells,
            expanded,
            format,
            locked,
            sibling_id,
            parent_id,
            to_top,
            to_bottom,
            indent,
            outdent,
            ..
        } = self;
        let ghost orig_cells = cells@;
        let mut cells_wire: Vec<WireValue> = Vec::new();
        while cells.len() > 0
            invariant
                cells_wire@.len() + cells@.len() == orig_cells.len(),
                cells@ =~= orig_cells.skip(cells_wire@.len() as int),
                forall|j: int|
                    0 <= j < cells_wire@.len() ==> cell_write_obj(
                        orig_cells[j],
                        #[trigger] cells_wire@[j],
                    ),
            decreases cells@.len(),
        {
            let cell = cells.remove(0);
            proof {
                assert(cell == orig_cells[cells_wire@.len() as int]);
                assert(cells@ =~= orig_cells.skip(cells_wire@.len() as int + 1));
            }
            cells_wire.push(cell.into_write_value());
        }
        let mut fields: Vec<(String, WireValue)> = Vec::new();
        if id != 0 {
            fields.push(("id".to_owned(), WireValue::Num(Number::from_u64(id))));
        }
        fields.push(("cells".to_owned(), WireValue::Arr(cells_wire)));
        push_row_attrs(&mut fields, expanded, format, locked, sibling_id, parent_id);
        push_row_placement(&mut fields, to_top, to_bottom, indent, outdent);
        WireValue::Obj(fields)
    }
}

} // verus!
