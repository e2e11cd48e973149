//! Public helper utilities: the column title/id mapping, cell lookup,
//! and the row query engine.

use crate::models::cell::cell::Cell;
use crate::models::cell::value::{cell_value_eq, CellValue};
use crate::models::column::column::Column;
use crate::models::error::ModelError;
use crate::models::row::row::{spec_find_cell, Row};
use vstd::prelude::*;

verus! {

/// The id of the column carrying `title`, under the rule that a later
/// column wins when two share a title.
pub open spec fn spec_id_of(m: Seq<(u64, Seq<char>)>, title: Seq<char>) -> Option<u64>
    decreases m.len(),
{
    if m.len() == 0 {
        None
    } else if m.last().1 == title {
        Some(m.last().0)
    } else {
        spec_id_of(m.drop_last(), title)
    }
}

/// The title of the column carrying `id`, under the same later-wins rule;
/// ids are unique in practice, so at most one column carries `id`.
pub open spec fn spec_title_of(m: Seq<(u64, Seq<char>)>, id: u64) -> Option<Seq<char>>
    decreases m.len(),
{
    if m.len() == 0 {
        None
    } else if m.last().0 == id {
        Some(m.last().1)
    } else {
        spec_title_of(m.drop_last(), id)
    }
}

/// **Column Mapper** - Utility holding the `title` <-> `id` mappings for
/// the columns in a sheet.
///
/// The mapping must be built from a non-empty column list: without
/// column data every later lookup would be meaningless, so an empty list
/// is a precondition violation, not a recoverable error.
pub struct ColumnMapper {
    /// One `(id, title)` pair per column, in column order.
    pub pairs: Vec<(u64, String)>,
}

impl View for ColumnMapper {
    type V = Seq<(u64, Seq<char>)>;

    open spec fn view(&self) -> Seq<(u64, Seq<char>)> {
        self.pairs@.map_values(|p: (u64, String)| (p.0, p.1@))
    }
}

impl ColumnMapper {
    /// Create a new `ColumnMapper` object from a non-empty list of
    /// `columns`.
    pub fn new(columns: &[Column]) -> (r: Self)
        requires
            columns@.len() > 0,
        ensures
            r@ == columns@.map_values(|c: Column| (c.id, c.title@)),
    {
        Self { pairs: Self::get_mappings(columns) }
    }

    /// Collect the `(id, title)` pair of every column, in order.
    #[verifier::loop_isolation(false)]
    fn get_mappings(columns: &[Column]) -> (r: Vec<(u64, String)>)
        ensures
            r@.map_values(|p: (u64, String)| (p.0, p.1@)) == columns@.map_values(
                |c: Column| (c.id, c.title@),
            ),
    {
        let mut pairs: Vec<(u64, String)> = Vec::new();
        let mut i: usize = 0;
        while i < columns.len()
            invariant
                i <= columns@.len(),
                pairs@.len() == i,
                forall|j: int|
                    0 <= j < i ==> (#[trigger] pairs@[j]).0 == columns@[j].id && pairs@[j].1@
                        == columns@[j].title@,
            decreases columns@.len() - i,
        {
            pairs.push((columns[i].id, columns[i].title.clone()));
            i = i + 1;
        }
        proof {
            assert(pairs@.map_values(|p: (u64, String)| (p.0, p.1@)) =~= columns@.map_values(
                |c: Column| (c.id, c.title@),
            ));
        }
        pairs
    }

    /// The column id for a `title`, if the mapping knows the title.
    #[verifier::loop_isolation(false)]
    pub fn name_to_id(&self, title: &str) -> (r: Option<u64>)
        ensures
            r == spec_id_of(self@, title@),
    {
        let wanted: String = title.to_owned();
        let mut i: usize = self.pairs.len();
        proof {
            assert(self@.take(i as int) =~= self@);
        }
        while i > 0
            invariant
                i <= self@.len(),
                spec_id_of(self@.take(i as int), title@) == spec_id_of(self@, title@),
            decreases i,
        {
            i = i - 1;
            proof {
                assert(self@.take(i as int + 1).last() == self@[i as int]);
                assert(self@.take(i as int + 1).drop_last() =~= self@.take(i as int));
            }
            if self.pairs[i].1 == wanted {
                return Some(self.pairs[i].0);
            }
        }
        None
    }

    /// The column title for an `id`, if the mapping knows the id.
    #[verifier::loop_isolation(false)]
    pub fn id_to_name(&self, id: u64) -> (r: Option<&str>)
        ensures
            match r {
                Some(t) => spec_title_of(self@, id) == Some(t@),
                None => spec_title_of(self@, id) is None,
            },
    {
        let mut i: usize = self.pairs.len();
        proof {
            assert(self@.take(i as int) =~= self@);
        }
        while i > 0
            invariant
                i <= self@.len(),
                spec_title_of(self@.take(i as int), id) == spec_title_of(self@, id),
            decreases i,
        {
            i = i - 1;
            proof {
                assert(self@.take(i as int + 1).last() == self@[i as int]);
                assert(self@.take(i as int + 1).drop_last() =~= self@.take(i as int));
            }
            if self.pairs[i].0 == id {
                return Some(self.pairs[i].1.as_str());
            }
        }
        None
    }
}

/// A title the mapping answers for always names a column of the list.
proof fn lemma_id_of_present(m: Seq<(u64, Seq<char>)>, title: Seq<char>)
    requires
        spec_id_of(m, title) is Some,
    ensures
        exists|j: int|
            0 <= j < m.len() && #[trigger] m[j] == (spec_id_of(m, title)->Some_0, title),
    decreases m.len(),
{
    if m.last().1 == title {
        assert(m[m.len() - 1] == (spec_id_of(m, title)->Some_0, title));
    } else {
        lemma_id_of_present(m.drop_last(), title);
        let j = choose|j: int|
            0 <= j < m.drop_last().len() && #[trigger] m.drop_last()[j] == (
                spec_id_of(m.drop_last(), title)->Some_0,
                title,
            );
        assert(m[j] == (spec_id_of(m, title)->Some_0, title));
    }
}

/// **Column mapping bijectivity**: in a column list whose ids are unique
/// — the service assigns each column a unique, immutable id, so every
/// mapping built from service data satisfies the hypothesis — looking a
/// column's title up and mapping the answering id back yields that same
/// title: `id_to_name(name_to_id(title)) == title` for the title of
/// every column of the list, duplicate titles included.
pub proof fn lemma_mapping_bijective(m: Seq<(u64, Seq<char>)>, i: int)
    requires
        0 <= i < m.len(),
        forall|a: int, b: int| 0 <= a < b < m.len() ==> (#[trigger] m[a]).0 != (#[trigger] m[b]).0,
    ensures
        spec_id_of(m, m[i].1) matches Some(id) && spec_title_of(m, id) == Some(m[i].1),
    decreases m.len(),
{
    let title = m[i].1;
    if m.last().1 == title {
        assert(spec_id_of(m, title) == Some(m.last().0));
        assert(spec_title_of(m, m.last().0) == Some(m.last().1));
    } else {
        assert(i < m.len() - 1);
        assert(m.drop_last()[i] == m[i]);
        lemma_mapping_bijective(m.drop_last(), i);
        let id = spec_id_of(m.drop_last(), title)->Some_0;
        lemma_id_of_present(m.drop_last(), title);
        let j = choose|j: int|
            0 <= j < m.drop_last().len() && #[trigger] m.drop_last()[j] == (id, title);
        assert(m[j].0 == id);
        assert(m.last().0 != id);
        assert(spec_id_of(m, title) == Some(id));
        assert(spec_title_of(m, id) == spec_title_of(m.drop_last(), id));
    }
}

/// The `(title, cell)` pairs of a row, one per cell whose column the
/// mapping knows, in cell order; a title that resolves for two cells
/// appears twice, the later entry being the one a map lookup keeps.
pub open spec fn spec_name_cells(m: Seq<(u64, Seq<char>)>, cells: Seq<Cell>) -> Seq<
    (Seq<char>, Cell),
>
    decreases cells.len(),
{
    if cells.len() == 0 {
        Seq::empty()
    } else {
        let rest = spec_name_cells(m, cells.drop_last());
        match spec_title_of(m, cells.last().column_id) {
            Some(t) => rest.push((t, cells.last())),
            None => rest,
        }
    }
}

/// **Cell Getter** - Utility to make it easier to retrieve a `Cell` from
/// a `Row` object.
pub struct CellGetter<'a> {
    /// The column mapping the lookups resolve titles against.
    pub mapper: &'a ColumnMapper,
}

impl<'a> CellGetter<'a> {
    /// Create a new `CellGetter` from a reference to a `ColumnMapper`
    /// object.
    pub fn new(columns: &'a ColumnMapper) -> (r: Self)
        ensures
            r.mapper == columns,
    {
        Self { mapper: columns }
    }

    /// Create a new `CellGetter` from a reference to a `ColumnMapper`
    /// object.
    pub fn from_mapper(columns: &'a ColumnMapper) -> (r: Self)
        ensures
            r.mapper == columns,
    {
        Self::new(columns)
    }

    /// Find a `cell` in a `row` by its *column name*.
    ///
    /// An unknown column name fails with `ColumnNotFound`, whatever the
    /// row holds; a known column the row has no cell for fails with
    /// `CellAbsent`. The two conditions stay distinguishable.
    pub fn by_name<'b>(&self, row: &'b Row, name: &str) -> (r: Result<&'b Cell, ModelError>)
        ensures
            match r {
                Ok(c) => spec_id_of(self.mapper@, name@) matches Some(cid) && spec_find_cell(
                    row.cells@,
                    cid,
                ) == Some(*c),
                Err(e) => match e {
                    ModelError::ColumnNotFound { title } => spec_id_of(self.mapper@, name@) is None
                        && title@ == name@,
                    ModelError::CellAbsent { column_id } => spec_id_of(self.mapper@, name@) == Some(
                        column_id,
                    ) && spec_find_cell(row.cells@, column_id) is None,
                    _ => false,
                },
            },
    {
        match self.mapper.name_to_id(name) {
            Some(col_id) => row.get_cell_by_id(col_id),
            None => Err(ModelError::ColumnNotFound { title: name.to_owned() }),
        }
    }

    /// Find a `cell` in a `row` by its *column id*.
    pub fn by_id<'b>(&self, row: &'b Row, column_id: u64) -> (r: Result<&'b Cell, ModelError>)
        ensures
            match r {
                Ok(c) => spec_find_cell(row.cells@, column_id) == Some(*c),
                Err(e) => {
                    &&& spec_find_cell(row.cells@, column_id) is None
                    &&& e matches ModelError::CellAbsent { column_id: cid } && cid == column_id
                },
            },
    {
        row.get_cell_by_id(column_id)
    }

    /// Retrieve a mapping of *column name* to `Cell` object: every cell
    /// of the row whose column the mapping knows, paired with its title.
    /// This takes one pass over the row, where repeated lookups by name
    /// would each scan it again.
    #[verifier::loop_isolation(false)]
    pub fn name_to_cell<'b>(&self, row: &'b Row) -> (r: Vec<(String, &'b Cell)>)
        ensures
            ({
                let expected = spec_name_cells(self.mapper@, row.cells@);
                &&& r@.len() == expected.len()
                &&& forall|k: int|
                    0 <= k < expected.len() ==> (#[trigger] r@[k]).0@ == expected[k].0 && *r@[k].1
                        == expected[k].1
            }),
    {
        let mut out: Vec<(String, &'b Cell)> = Vec::new();
        let mut i: usize = 0;
        while i < row.cells.len()
            invariant
                i <= row.cells@.len(),
                ({
                    let expected = spec_name_cells(self.mapper@, row.cells@.take(i as int));
                    &&& out@.len() == expected.len()
                    &&& forall|k: int|
                        0 <= k < expected.len() ==> (#[trigger] out@[k]).0@ == expected[k].0
                            && *out@[k].1 == expected[k].1
                }),
            decreases row.cells@.len() - i,
        {
            proof {
                assert(row.cells@.take(i as int + 1).drop_last() =~= row.cells@.take(i as int));
                assert(row.cells@.take(i as int + 1).last() == row.cells@[i as int]);
            }
            if let Some(col_name) = self.mapper.id_to_name(row.cells[i].column_id) {
                out.push((col_name.to_owned(), &row.cells[i]));
            }
            i = i + 1;
        }
        proof {
            assert(row.cells@.take(row.cells@.len() as int) =~= row.cells@);
        }
        out
    }
}

/// Enum which represents a comparison operator for a search criteria.
#[derive(Debug, Clone, Copy, PartialEq, Eq, Structural)]
pub enum Comp {
    EQ,
    NE,
}

/// Whether `actual` satisfies the comparison against the bound `value`:
/// structural equality for `EQ`, its negation for `NE`.
pub open spec fn comp_matches(cmp: Comp, value: CellValue, actual: CellValue) -> bool {
    match cmp {
        Comp::EQ => cell_value_eq(value, actual),
        Comp::NE => !cell_value_eq(value, actual),
    }
}

impl Comp {
    /// Compare two `CellValue`s under this operator.
    pub fn matches(&self, value: &CellValue, actual: &CellValue) -> (r: bool)
        ensures
            r == comp_matches(*self, *value, *actual),
    {
        match self {
            Comp::EQ => *value == *actual,
            Comp::NE => !(*value == *actual),
        }
    }
}

/// Whether a row satisfies a query condition: its cell at `column_id`
/// must exist, must have a set `value`, and that value must satisfy the
/// comparison. A row whose target cell is absent, or present with no
/// value, matches **neither** `EQ` **nor** `NE`: absence is not a value,
/// so it does not even count as "not equal". This is deliberate policy,
/// not an oversight.
pub open spec fn row_matches(row: Row, column_id: u64, value: CellValue, cmp: Comp) -> bool {
    match spec_find_cell(row.cells@, column_id) {
        Some(cell) => match cell.value {
            Some(actual) => comp_matches(cmp, value, actual),
            None => false,
        },
        None => false,
    }
}

/// **Query absence semantics**: a row whose cell at the queried column
/// has no value set satisfies no query on that column — under `EQ` and
/// under `NE` alike, whatever value the query compares against.
pub proof fn lemma_absent_value_never_matches(row: Row, column_id: u64, value: CellValue)
    requires
        match spec_find_cell(row.cells@, column_id) {
            Some(cell) => cell.value is None,
            None => true,
        },
    ensures
        !row_matches(row, column_id, value, Comp::EQ),
        !row_matches(row, column_id, value, Comp::NE),
{
}

/// The first row of `rows` matching the condition.
pub open spec fn spec_first_match(
    rows: Seq<Row>,
    column_id: u64,
    value: CellValue,
    cmp: Comp,
) -> Option<Row>
    decreases rows.len(),
{
    if rows.len() == 0 {
        None
    } else if row_matches(rows[0], column_id, value, cmp) {
        Some(rows[0])
    } else {
        spec_first_match(rows.drop_first(), column_id, value, cmp)
    }
}

/// All rows of `rows` matching the condition, in row order.
pub open spec fn spec_matching_rows(
    rows: Seq<Row>,
    column_id: u64,
    value: CellValue,
    cmp: Comp,
) -> Seq<Row>
    decreases rows.len(),
{
    if rows.len() == 0 {
        Seq::empty()
    } else {
        let rest = spec_matching_rows(rows.drop_last(), column_id, value, cmp);
        if row_matches(rows.last(), column_id, value, cmp) {
            rest.push(rows.last())
        } else {
            rest
        }
    }
}

/// **Row Getter** - Utility to find and retrieve row(s) in an array of
/// `Row` objects, based on a pre-defined filter condition — most
/// commonly, finding a `Row` where a cell is *equal* to a specific
/// value.
pub struct RowGetter<'a> {
    /// The rows the search runs over.
    pub rows: &'a [Row],
    /// The column mapping that resolves a condition's column name.
    pub mapper: &'a ColumnMapper,
}

impl<'a> RowGetter<'a> {
    /// Create a new `RowGetter` from a reference to a `ColumnMapper`
    /// object.
    pub fn new(rows: &'a [Row], columns: &'a ColumnMapper) -> (r: Self)
        ensures
            r.rows == rows,
            r.mapper == columns,
    {
        Self { rows, mapper: columns }
    }

    /// Uses an **equals (eq)** condition to compare a cell for a *column
    /// name* against a specified *value*.
    pub fn where_eq(&self, column_name: &str, value: CellValue) -> (r: Result<
        RowFinder<'a>,
        ModelError,
    >)
        ensures
            match r {
                Ok(f) => {
                    &&& spec_id_of(self.mapper@, column_name@) == Some(f.column_id)
                    &&& f.rows == self.rows
                    &&& f.value == value
                    &&& f.cmp == Comp::EQ
                },
                Err(e) => {
                    &&& spec_id_of(self.mapper@, column_name@) is None
                    &&& e matches ModelError::ColumnNotFound { title } && title@ == column_name@
                },
            },
    {
        RowFinder::new(self.rows, self.mapper, column_name, value, Comp::EQ)
    }

    /// Uses an **equals (eq)** condition to compare a cell for a *column
    /// id* against a specified *value*.
    pub fn where_eq_by_id(&self, column_id: u64, value: CellValue) -> (r: RowFinder<'a>)
        ensures
            r.rows == self.rows,
            r.column_id == column_id,
            r.value == value,
            r.cmp == Comp::EQ,
    {
        RowFinder::new_by_id(self.rows, column_id, value, Comp::EQ)
    }

    /// Uses a **not equals (ne)** condition to compare a cell for a
    /// *column name* against a specified *value*.
    pub fn where_ne(&self, column_name: &str, value: CellValue) -> (r: Result<
        RowFinder<'a>,
        ModelError,
    >)
        ensures
            match r {
                Ok(f) => {
                    &&& spec_id_of(self.mapper@, column_name@) == Some(f.column_id)
                    &&& f.rows == self.rows
                    &&& f.value == value
                    &&& f.cmp == Comp::NE
                },
                Err(e) => {
                    &&& spec_id_of(self.mapper@, column_name@) is None
                    &&& e matches ModelError::ColumnNotFound { title } && title@ == column_name@
                },
            },
    {
        RowFinder::new(self.rows, self.mapper, column_name, value, Comp::NE)
    }

    /// Uses a **not equals (ne)** condition to compare a cell for a
    /// *column id* against a specified *value*.
    pub fn where_ne_by_id(&self, column_id: u64, value: CellValue) -> (r: RowFinder<'a>)
        ensures
            r.rows == self.rows,
            r.column_id == column_id,
            r.value == value,
            r.cmp == Comp::NE,
    {
        RowFinder::new_by_id(self.rows, column_id, value, Comp::NE)
    }
}

/// **Row Finder**: find row(s) in an array of `Row`s that match a
/// pre-defined condition. Prefer building one through [`RowGetter`],
/// which is a little easier to work with.
#[derive(Debug)]
pub struct RowFinder<'a> {
    /// The rows the search runs over.
    pub rows: &'a [Row],
    /// The column id whose cell the condition reads.
    pub column_id: u64,
    /// The value the condition compares against.
    pub value: CellValue,
    /// How the cell value is compared against `value`.
    pub cmp: Comp,
}

impl<'a> RowFinder<'a> {
    /// Create a new `RowFinder`, resolving the column name first; an
    /// unknown name fails with `ColumnNotFound`.
    pub fn new(
        rows: &'a [Row],
        column_name_to_id: &ColumnMapper,
        column_name: &str,
        value: CellValue,
        cmp: Comp,
    ) -> (r: Result<Self, ModelError>)
        ensures
            match r {
                Ok(f) => {
                    &&& spec_id_of(column_name_to_id@, column_name@) == Some(f.column_id)
                    &&& f.rows == rows
                    &&& f.value == value
                    &&& f.cmp == cmp
                },
                Err(e) => {
                    &&& spec_id_of(column_name_to_id@, column_name@) is None
                    &&& e matches ModelError::ColumnNotFound { title } && title@ == column_name@
                },
            },
    {
        let column_id = match column_name_to_id.name_to_id(column_name) {
            Some(v) => v,
            None => {
                return Err(ModelError::ColumnNotFound { title: column_name.to_owned() });
            },
        };
        Ok(Self::new_by_id(rows, column_id, value, cmp))
    }

    /// Create a new `RowFinder` by *column id* instead of *column name*.
    pub fn new_by_id(rows: &'a [Row], column_id: u64, value: CellValue, cmp: Comp) -> (r: Self)
        ensures
            r.rows == rows,
            r.column_id == column_id,
            r.value == value,
            r.cmp == cmp,
    {
        Self { rows, column_id, value, cmp }
    }

    /// Find the *first* `Row` matching the condition, in row order;
    /// fails with `NoMatch` when no row satisfies it.
    #[verifier::loop_isolation(false)]
    pub fn first(&self) -> (r: Result<&'a Row, ModelError>)
        ensures
            match r {
                Ok(row) => spec_first_match(self.rows@, self.column_id, self.value, self.cmp)
                    == Some(*row),
                Err(e) => spec_first_match(self.rows@, self.column_id, self.value, self.cmp)
                    is None && e is NoMatch,
            },
    {
        let mut i: usize = 0;
        proof {
            assert(self.rows@.skip(0) =~= self.rows@);
        }
        while i < self.rows.len()
            invariant
                i <= self.rows@.len(),
                spec_first_match(self.rows@.skip(i as int), self.column_id, self.value, self.cmp)
                    == spec_first_match(self.rows@, self.column_id, self.value, self.cmp),
            decreases self.rows@.len() - i,
        {
            proof {
                assert(self.rows@.skip(i as int)[0] == self.rows@[i as int]);
                assert(self.rows@.skip(i as int).drop_first() =~= self.rows@.skip(i as int + 1));
            }
            let row = &self.rows[i];
            let row_is_match: bool = match row.get_cell_by_id(self.column_id) {
                Ok(cell) => match cell.value {
                    Some(ref actual) => self.cmp.matches(&self.value, actual),
                    None => false,
                },
                Err(_) => false,
            };
            if row_is_match {
                return Ok(row);
            }
            i = i + 1;
        }
        Err(ModelError::NoMatch)
    }

    /// Find *all* `Row`s matching the condition, preserving row order.
    /// An empty result is a valid outcome, not an error: the result is
    /// always `Ok`.
    #[verifier::loop_isolation(false)]
    pub fn find_all(&self) -> (r: Result<Vec<&'a Row>, ModelError>)
        ensures
            ({
                let expected = spec_matching_rows(
                    self.rows@,
                    self.column_id,
                    self.value,
                    self.cmp,
                );
                r matches Ok(v) && v@.len() == expected.len() && (forall|k: int|
                    0 <= k < expected.len() ==> *(#[trigger] v@[k]) == expected[k])
            }),
    {
        let mut out: Vec<&'a Row> = Vec::new();
        let mut i: usize = 0;
        while i < self.rows.len()
            invariant
                i <= self.rows@.len(),
                ({
                    let expected = spec_matching_rows(
                        self.rows@.take(i as int),
                        self.column_id,
                        self.value,
                        self.cmp,
                    );
                    out@.len() == expected.len() && (forall|k: int|
                        0 <= k < expected.len() ==> *(#[trigger] out@[k]) == expected[k])
                }),
            decreases self.rows@.len() - i,
        {
            proof {
                assert(self.rows@.take(i as int + 1).drop_last() =~= self.rows@.take(i as int));
                assert(self.rows@.take(i as int + 1).last() == self.rows@[i as int]);
            }
            let row = &self.rows[i];
            let row_is_match: bool = match row.get_cell_by_id(self.column_id) {
                Ok(cell) => match cell.value {
                    Some(ref actual) => self.cmp.matches(&self.value, actual),
                    None => false,
                },
                Err(_) => false,
            };
            if row_is_match {
                out.push(row);
            }
            i = i + 1;
        }
        proof {
            assert(self.rows@.take(self.rows@.len() as int) =~= self.rows@);
        }
        Ok(out)
    }
}

} // verus!
