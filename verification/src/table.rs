//! The decision table of the `schemas` verb: which combinations of flags are
//! accepted, and which kind of registry operation each of them selects.

use vstd::prelude::*;

verus! {

/// What a row of the table asks of one flag.
#[derive(Clone, Copy, Debug, PartialEq, Eq, Structural)]
pub enum Cell {
    /// The flag is absent.
    No,
    /// The flag is present.
    Yes,
    /// The flag may be either.
    Any,
}

/// The kinds of registry operation.
#[derive(Clone, Copy, Debug, PartialEq, Eq, Structural)]
pub enum Kind {
    ListSubjects,
    GetSubject,
    GetVersion,
    DeleteVersion,
    CheckVersion,
    DeleteSubject,
    CheckSubject,
    RegisterVersion,
}

/// Which flags an invocation of `schemas` carries: for an option, whether it
/// has a value.
#[derive(Clone, Copy, Debug, PartialEq, Eq, Structural)]
pub struct Shape {
    pub list: bool,
    pub subject: bool,
    pub version: bool,
    pub delete: bool,
    pub schema: bool,
    pub register: bool,
    pub check: bool,
    pub body: bool,
}

/// One row of the table: a pattern over the flags and the kind it selects.
#[derive(Clone, Copy, Debug, PartialEq, Eq, Structural)]
pub struct Row {
    pub list: Cell,
    pub subject: Cell,
    pub version: Cell,
    pub delete: Cell,
    pub schema: Cell,
    pub register: Cell,
    pub check: Cell,
    pub body: Cell,
    pub kind: Kind,
}

/// Whether a cell lets a flag's presence pass.
pub open spec fn spec_cell_admits(cell: Cell, present: bool) -> bool {
    match cell {
        Cell::No => !present,
        Cell::Yes => present,
        Cell::Any => true,
    }
}

/// Whether a row matches a shape: every cell lets its flag pass.
pub open spec fn spec_admits(row: Row, shape: Shape) -> bool {
    &&& spec_cell_admits(row.list, shape.list)
    &&& spec_cell_admits(row.subject, shape.subject)
    &&& spec_cell_admits(row.version, shape.version)
    &&& spec_cell_admits(row.delete, shape.delete)
    &&& spec_cell_admits(row.schema, shape.schema)
    &&& spec_cell_admits(row.register, shape.register)
    &&& spec_cell_admits(row.check, shape.check)
    &&& spec_cell_admits(row.body, shape.body)
}

/// A row, cell by cell in the order of the columns.
pub open spec fn spec_row(
    list: Cell,
    subject: Cell,
    version: Cell,
    delete: Cell,
    schema: Cell,
    register: Cell,
    check: Cell,
    body: Cell,
    kind: Kind,
) -> Row {
    Row { list, subject, version, delete, schema, register, check, body, kind }
}

/// The table. Columns: list, subject, version, delete, schema, register,
/// check, body.
pub open spec fn spec_table() -> Seq<Row> {
    seq![
        spec_row(Cell::Yes, Cell::No, Cell::No, Cell::No, Cell::No, Cell::No, Cell::No, Cell::No, Kind::ListSubjects),
        spec_row(Cell::No, Cell::Yes, Cell::No, Cell::No, Cell::No, Cell::No, Cell::No, Cell::No, Kind::GetSubject),
        spec_row(Cell::No, Cell::Yes, Cell::Yes, Cell::No, Cell::Any, Cell::No, Cell::No, Cell::No, Kind::GetVersion),
        spec_row(Cell::No, Cell::Yes, Cell::Yes, Cell::Yes, Cell::No, Cell::No, Cell::No, Cell::No, Kind::DeleteVersion),
        spec_row(Cell::No, Cell::Yes, Cell::Yes, Cell::No, Cell::No, Cell::No, Cell::Yes, Cell::Yes, Kind::CheckVersion),
        spec_row(Cell::No, Cell::Yes, Cell::Yes, Cell::No, Cell::No, Cell::No, Cell::Yes, Cell::No, Kind::CheckVersion),
        spec_row(Cell::No, Cell::Yes, Cell::No, Cell::Yes, Cell::No, Cell::No, Cell::No, Cell::No, Kind::DeleteSubject),
        spec_row(Cell::No, Cell::Yes, Cell::No, Cell::No, Cell::No, Cell::No, Cell::Yes, Cell::No, Kind::CheckSubject),
        spec_row(Cell::No, Cell::Yes, Cell::No, Cell::No, Cell::No, Cell::No, Cell::Yes, Cell::Yes, Kind::CheckSubject),
        spec_row(Cell::No, Cell::Yes, Cell::No, Cell::No, Cell::No, Cell::Yes, Cell::No, Cell::No, Kind::RegisterVersion),
        spec_row(Cell::No, Cell::Yes, Cell::No, Cell::No, Cell::No, Cell::Yes, Cell::No, Cell::Yes, Kind::RegisterVersion),
    ]
}

/// The kind of the first row at or after `from` that matches `shape`.
pub open spec fn spec_find_from(rows: Seq<Row>, shape: Shape, from: int) -> Option<Kind>
    decreases rows.len() - from,
{
    if from < 0 || from >= rows.len() {
        None
    } else if spec_admits(rows[from], shape) {
        Some(rows[from].kind)
    } else {
        spec_find_from(rows, shape, from + 1)
    }
}

/// The kind of the first row that matches `shape`, if any does.
pub open spec fn spec_find(rows: Seq<Row>, shape: Shape) -> Option<Kind> {
    spec_find_from(rows, shape, 0)
}

/// The kind that the table selects for `shape`, if it accepts it.
pub open spec fn spec_select(shape: Shape) -> Option<Kind> {
    spec_find(spec_table(), shape)
}

/// Whether a cell lets a flag's presence pass.
pub fn cell_admits(cell: Cell, present: bool) -> (r: bool)
    ensures
        r == spec_cell_admits(cell, present),
{
    match cell {
        Cell::No => !present,
        Cell::Yes => present,
        Cell::Any => true,
    }
}

/// Whether a row matches a shape.
pub fn admits(row: &Row, shape: &Shape) -> (r: bool)
    ensures
        r == spec_admits(*row, *shape),
{
    cell_admits(row.list, shape.list) && cell_admits(row.subject, shape.subject) && cell_admits(
        row.version,
        shape.version,
    ) && cell_admits(row.delete, shape.delete) && cell_admits(row.schema, shape.schema)
        && cell_admits(row.register, shape.register) && cell_admits(row.check, shape.check)
        && cell_admits(row.body, shape.body)
}

/// A row, cell by cell in the order of the columns.
fn row(
    list: Cell,
    subject: Cell,
    version: Cell,
    delete: Cell,
    schema: Cell,
    register: Cell,
    check: Cell,
    body: Cell,
    kind: Kind,
) -> (r: Row)
    ensures
        r == spec_row(list, subject, version, delete, schema, register, check, body, kind),
{
    Row { list, subject, version, delete, schema, register, check, body, kind }
}

/// The table, row by row.
pub fn table() -> (t: Vec<Row>)
    ensures
        t@ == spec_table(),
{
    let t = vec![
        row(Cell::Yes, Cell::No, Cell::No, Cell::No, Cell::No, Cell::No, Cell::No, Cell::No, Kind::ListSubjects),
        row(Cell::No, Cell::Yes, Cell::No, Cell::No, Cell::No, Cell::No, Cell::No, Cell::No, Kind::GetSubject),
        row(Cell::No, Cell::Yes, Cell::Yes, Cell::No, Cell::Any, Cell::No, Cell::No, Cell::No, Kind::GetVersion),
        row(Cell::No, Cell::Yes, Cell::Yes, Cell::Yes, Cell::No, Cell::No, Cell::No, Cell::No, Kind::DeleteVersion),
        row(Cell::No, Cell::Yes, Cell::Yes, Cell::No, Cell::No, Cell::No, Cell::Yes, Cell::Yes, Kind::CheckVersion),
        row(Cell::No, Cell::Yes, Cell::Yes, Cell::No, Cell::No, Cell::No, Cell::Yes, Cell::No, Kind::CheckVersion),
        row(Cell::No, Cell::Yes, Cell::No, Cell::Yes, Cell::No, Cell::No, Cell::No, Cell::No, Kind::DeleteSubject),
        row(Cell::No, Cell::Yes, Cell::No, Cell::No, Cell::No, Cell::No, Cell::Yes, Cell::No, Kind::CheckSubject),
        row(Cell::No, Cell::Yes, Cell::No, Cell::No, Cell::No, Cell::No, Cell::Yes, Cell::Yes, Kind::CheckSubject),
        row(Cell::No, Cell::Yes, Cell::No, Cell::No, Cell::No, Cell::Yes, Cell::No, Cell::No, Kind::RegisterVersion),
        row(Cell::No, Cell::Yes, Cell::No, Cell::No, Cell::No, Cell::Yes, Cell::No, Cell::Yes, Kind::RegisterVersion),
    ];
    assert(t@ =~= spec_table());
    t
}

/// Walks `rows` from the first and returns the kind of the first that
/// matches `shape`.
pub fn find(rows: &Vec<Row>, shape: &Shape) -> (r: Option<Kind>)
    ensures
        r == spec_find(rows@, *shape),
{
    let mut i: usize = 0;
    while i < rows.len()
        invariant
            i <= rows.len(),
            spec_find(rows@, *shape) == spec_find_from(rows@, *shape, i as int),
        decreases rows.len() - i,
    {
        if admits(&rows[i], shape) {
            return Some(rows[i].kind);
        }
        i += 1;
    }
    None
}

/// Looks `shape` up in the table.
pub fn select(shape: &Shape) -> (r: Option<Kind>)
    ensures
        r == spec_select(*shape),
{
    let t = table();
    find(&t, shape)
}

/// What `spec_find_from` returns, said of the rows: `None` when no row from
/// `from` on matches, else the kind of the first that does.
pub proof fn lemma_find_from(rows: Seq<Row>, shape: Shape, from: int)
    requires
        0 <= from <= rows.len(),
    ensures
        match spec_find_from(rows, shape, from) {
            None => forall|j: int| from <= j < rows.len() ==> !spec_admits(#[trigger] rows[j], shape),
            Some(kind) => exists|j: int|
                {
                    &&& from <= j < rows.len()
                    &&& spec_admits(#[trigger] rows[j], shape)
                    &&& rows[j].kind == kind
                },
        },
    decreases rows.len() - from,
{
    if from < rows.len() && !spec_admits(rows[from], shape) {
        lemma_find_from(rows, shape, from + 1);
    }
}

/// No two rows of the table match the same shape.
pub proof fn lemma_rows_disjoint(shape: Shape, i: int, j: int)
    requires
        0 <= i < spec_table().len(),
        0 <= j < spec_table().len(),
        spec_admits(spec_table()[i], shape),
        spec_admits(spec_table()[j], shape),
    ensures
        i == j,
{
}

/// A shape that some row matches is matched by that row alone, and the table
/// selects that row's kind for it.
pub proof fn lemma_select_total(shape: Shape, i: int)
    requires
        0 <= i < spec_table().len(),
        spec_admits(spec_table()[i], shape),
    ensures
        forall|j: int|
            0 <= j < spec_table().len() && j != i ==> !spec_admits(#[trigger] spec_table()[j], shape),
        spec_select(shape) == Some(spec_table()[i].kind),
{
    assert forall|j: int| 0 <= j < spec_table().len() && j != i implies !spec_admits(
        #[trigger] spec_table()[j],
        shape,
    ) by {
        if spec_admits(spec_table()[j], shape) {
            lemma_rows_disjoint(shape, i, j);
        }
    }
    lemma_find_from(spec_table(), shape, 0);
}

/// A shape that no row matches is not in the table, and a shape that the
/// table has no kind for is matched by no row.
pub proof fn lemma_select_exclusive(shape: Shape)
    ensures
        spec_select(shape) is None <==> forall|i: int|
            0 <= i < spec_table().len() ==> !spec_admits(#[trigger] spec_table()[i], shape),
{
    lemma_find_from(spec_table(), shape, 0);
}

} // verus!
