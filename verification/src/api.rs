//! The request paths of the Smartsheet API v2, the rendering of their
//! query parameter values, and the lookups a caller runs over fetched
//! index data.
//!
//! Every GET the client makes is a path under the API endpoint plus
//! query parameters; these functions pin the path and each parameter
//! value down to the character, and [`crate::builders::ParamBuilder`]
//! assembles them. The transport that sends the requests lives outside
//! this crate.

use crate::builders::{spec_csv, spec_csv_arg, spec_value_arg};
use crate::models::column::column::Column;
use crate::models::params::EnumStr;
use crate::models::sheet::sheet::Sheet;
use crate::utils::{spec_dec, u64_to_string};
use vstd::prelude::*;
use vstd::string::StringExecFns;

verus! {

/// The comma-joined rendering of an optional list of flags.
pub open spec fn spec_flags_arg<T: EnumStr>(values: Option<Vec<T>>) -> Option<Seq<char>> {
    match values {
        Some(vs) => Some(spec_csv(vs@.map_values(|f: T| f.str_spec()))),
        None => None,
    }
}

/// The comma-joined rendering of an optional list of ids.
pub open spec fn spec_ids_arg(values: Option<Vec<u64>>) -> Option<Seq<char>> {
    match values {
        Some(vs) => Some(spec_csv(vs@.map_values(|v: u64| spec_dec(v as nat)))),
        None => None,
    }
}

/// The rendering of an optional boolean parameter.
pub open spec fn spec_bool_arg(value: Option<bool>) -> Option<Seq<char>> {
    match value {
        Some(b) => Some(
            if b {
                "true"@
            } else {
                "false"@
            },
        ),
        None => None,
    }
}

/// The characters of an optional borrowed string parameter.
pub open spec fn spec_str_arg(value: Option<&str>) -> Option<Seq<char>> {
    match value {
        Some(s) => Some(s@),
        None => None,
    }
}

/// The rendering of one optional flag-like parameter.
pub open spec fn spec_flag_arg<T: EnumStr>(value: Option<T>) -> Option<Seq<char>> {
    match value {
        Some(f) => Some(f.str_spec()),
        None => None,
    }
}

/// Render an optional flag list for the query string.
#[verifier::loop_isolation(false)]
pub fn opt_flags_to_strings<T: EnumStr>(values: Option<Vec<T>>) -> (r: Option<Vec<String>>)
    ensures
        spec_csv_arg(r) == spec_flags_arg(values),
{
    match values {
        Some(vs) => {
            let mut out: Vec<String> = Vec::new();
            let mut i: usize = 0;
            while i < vs.len()
                invariant
                    i <= vs@.len(),
                    out@.len() == i,
                    forall|j: int| 0 <= j < i ==> (#[trigger] out@[j])@ == vs@[j].str_spec(),
                decreases vs@.len() - i,
            {
                out.push(vs[i].as_str().to_owned());
                i = i + 1;
            }
            proof {
                assert(out@.map_values(|s: String| s@) =~= vs@.map_values(|f: T| f.str_spec()));
            }
            Some(out)
        },
        None => None,
    }
}

/// Render an optional id list for the query string.
#[verifier::loop_isolation(false)]
pub fn opt_ids_to_strings(values: Option<Vec<u64>>) -> (r: Option<Vec<String>>)
    ensures
        spec_csv_arg(r) == spec_ids_arg(values),
{
    match values {
        Some(vs) => {
            let mut out: Vec<String> = Vec::new();
            let mut i: usize = 0;
            while i < vs.len()
                invariant
                    i <= vs@.len(),
                    out@.len() == i,
                    forall|j: int| 0 <= j < i ==> (#[trigger] out@[j])@ == spec_dec(vs@[j] as nat),
                decreases vs@.len() - i,
            {
                out.push(u64_to_string(vs[i]));
                i = i + 1;
            }
            proof {
                assert(out@.map_values(|s: String| s@) =~= vs@.map_values(
                    |v: u64| spec_dec(v as nat),
                ));
            }
            Some(out)
        },
        None => None,
    }
}

/// Render an optional boolean for the query string.
pub fn opt_bool_to_string(value: Option<bool>) -> (r: Option<String>)
    ensures
        spec_value_arg(r) == spec_bool_arg(value),
{
    match value {
        Some(b) => Some(
            if b {
                "true".to_owned()
            } else {
                "false".to_owned()
            },
        ),
        None => None,
    }
}

/// Take an optional borrowed string into the query string.
pub fn opt_str_to_string(value: Option<&str>) -> (r: Option<String>)
    ensures
        spec_value_arg(r) == spec_str_arg(value),
{
    match value {
        Some(s) => Some(s.to_owned()),
        None => None,
    }
}

/// Render one optional flag-like parameter for the query string.
pub fn opt_flag_to_string<T: EnumStr>(value: Option<T>) -> (r: Option<String>)
    ensures
        spec_value_arg(r) == spec_flag_arg(value),
{
    match value {
        Some(f) => Some(f.as_str().to_owned()),
        None => None,
    }
}

/// The path of a **List Sheets** request: all sheets the user has
/// access to.
pub open spec fn spec_sheets_path(endpoint: Seq<char>) -> Seq<char> {
    endpoint + "/sheets"@
}

/// Build the path of a **List Sheets** request; the caller appends its
/// query parameters through [`crate::builders::ParamBuilder`].
pub fn sheets_path(endpoint: &str) -> (r: String)
    ensures
        r@ == spec_sheets_path(endpoint@),
{
    let mut url: String = endpoint.to_owned();
    url.append("/sheets");
    url
}

/// The path of a **Get Sheet** request.
pub open spec fn spec_sheet_path(endpoint: Seq<char>, sheet_id: u64) -> Seq<char> {
    endpoint + "/sheets/"@ + spec_dec(sheet_id as nat)
}

/// Build the path of a **Get Sheet** request: the sheet with its rows.
pub fn sheet_path(endpoint: &str, sheet_id: u64) -> (r: String)
    ensures
        r@ == spec_sheet_path(endpoint@, sheet_id),
{
    let mut url: String = endpoint.to_owned();
    url.append("/sheets/");
    let id_text = u64_to_string(sheet_id);
    url.append(id_text.as_str());
    url
}

/// The path of a **Get Row** request.
pub open spec fn spec_row_path(endpoint: Seq<char>, sheet_id: u64, row_id: u64) -> Seq<char> {
    endpoint + "/sheets/"@ + spec_dec(sheet_id as nat) + "/rows/"@ + spec_dec(row_id as nat)
}

/// Build the path of a **Get Row** request: one row of a sheet.
pub fn row_path(endpoint: &str, sheet_id: u64, row_id: u64) -> (r: String)
    ensures
        r@ == spec_row_path(endpoint@, sheet_id, row_id),
{
    let mut url: String = endpoint.to_owned();
    url.append("/sheets/");
    let sheet_text = u64_to_string(sheet_id);
    url.append(sheet_text.as_str());
    url.append("/rows/");
    let row_text = u64_to_string(row_id);
    url.append(row_text.as_str());
    url
}

/// The path of a **List Columns** request.
pub open spec fn spec_columns_path(endpoint: Seq<char>, sheet_id: u64) -> Seq<char> {
    endpoint + "/sheets/"@ + spec_dec(sheet_id as nat) + "/columns"@
}

/// Build the path of a **List Columns** request: all columns of a sheet.
pub fn columns_path(endpoint: &str, sheet_id: u64) -> (r: String)
    ensures
        r@ == spec_columns_path(endpoint@, sheet_id),
{
    let mut url: String = endpoint.to_owned();
    url.append("/sheets/");
    let id_text = u64_to_string(sheet_id);
    url.append(id_text.as_str());
    url.append("/columns");
    url
}

/// The path of a **Get Column** request.
pub open spec fn spec_column_path(endpoint: Seq<char>, sheet_id: u64, column_id: u64) -> Seq<
    char,
> {
    endpoint + "/sheets/"@ + spec_dec(sheet_id as nat) + "/columns/"@ + spec_dec(column_id as nat)
}

/// Build the path of a **Get Column** request: one column of a sheet.
pub fn column_path(endpoint: &str, sheet_id: u64, column_id: u64) -> (r: String)
    ensures
        r@ == spec_column_path(endpoint@, sheet_id, column_id),
{
    let mut url: String = endpoint.to_owned();
    url.append("/sheets/");
    let sheet_text = u64_to_string(sheet_id);
    url.append(sheet_text.as_str());
    url.append("/columns/");
    let column_text = u64_to_string(column_id);
    url.append(column_text.as_str());
    url
}

/// The first sheet of the list whose name is `name`.
pub open spec fn spec_find_sheet_by_name(sheets: Seq<Sheet>, name: Seq<char>) -> Option<Sheet>
    decreases sheets.len(),
{
    if sheets.len() == 0 {
        None
    } else if sheets[0].name@ == name {
        Some(sheets[0])
    } else {
        spec_find_sheet_by_name(sheets.drop_first(), name)
    }
}

/// Find a sheet by its *name* in listed sheet data, for those times when
/// the sheet id is not known: the first sheet with a matching name.
#[verifier::loop_isolation(false)]
pub fn find_sheet_by_name<'a>(sheets: &'a Vec<Sheet>, sheet_name: &str) -> (r: Option<&'a Sheet>)
    ensures
        match r {
            Some(sheet) => spec_find_sheet_by_name(sheets@, sheet_name@) == Some(*sheet),
            None => spec_find_sheet_by_name(sheets@, sheet_name@) is None,
        },
{
    let wanted: String = sheet_name.to_owned();
    let mut i: usize = 0;
    proof {
        assert(sheets@.skip(0) =~= sheets@);
    }
    while i < sheets.len()
        invariant
            i <= sheets@.len(),
            spec_find_sheet_by_name(sheets@.skip(i as int), sheet_name@)
                == spec_find_sheet_by_name(sheets@, sheet_name@),
        decreases sheets@.len() - i,
    {
        proof {
            assert(sheets@.skip(i as int)[0] == sheets@[i as int]);
            assert(sheets@.skip(i as int).drop_first() =~= sheets@.skip(i as int + 1));
        }
        if sheets[i].name == wanted {
            return Some(&sheets[i]);
        }
        i = i + 1;
    }
    None
}

/// The first column of the list whose title is `title`.
pub open spec fn spec_find_column_by_title(columns: Seq<Column>, title: Seq<char>) -> Option<
    Column,
>
    decreases columns.len(),
{
    if columns.len() == 0 {
        None
    } else if columns[0].title@ == title {
        Some(columns[0])
    } else {
        spec_find_column_by_title(columns.drop_first(), title)
    }
}

/// Find a column by its *title* in listed column data, for those times
/// when the column id is not known: the first column with a matching
/// title.
#[verifier::loop_isolation(false)]
pub fn find_column_by_title<'a>(columns: &'a Vec<Column>, column_title: &str) -> (r: Option<
    &'a Column,
>)
    ensures
        match r {
            Some(column) => spec_find_column_by_title(columns@, column_title@) == Some(*column),
            None => spec_find_column_by_title(columns@, column_title@) is None,
        },
{
    let wanted: String = column_title.to_owned();
    let mut i: usize = 0;
    proof {
        assert(columns@.skip(0) =~= columns@);
    }
    while i < columns.len()
        invariant
            i <= columns@.len(),
            spec_find_column_by_title(columns@.skip(i as int), column_title@)
                == spec_find_column_by_title(columns@, column_title@),
        decreases columns@.len() - i,
    {
        proof {
            assert(columns@.skip(i as int)[0] == columns@[i as int]);
            assert(columns@.skip(i as int).drop_first() =~= columns@.skip(i as int + 1));
        }
        if columns[i].title == wanted {
            return Some(&columns[i]);
        }
        i = i + 1;
    }
    None
}

} // verus!
