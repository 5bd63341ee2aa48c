use vstd::prelude::*;
use prettytable::format::TableFormat;
use prettytable::{Cell, Row, Table};
use crate::cell::{cell_view, CellSpec, CellView, RenderedCell};
use crate::pattern::Pattern;

verus! {

#[verifier::external_type_specification]
#[verifier::external_body]
pub struct ExTable(prettytable::Table);

#[verifier::external_type_specification]
#[verifier::external_body]
pub struct ExTableFormat(prettytable::format::TableFormat);

/// What a table holds: its rows in order, each as the views of its cells.
pub uninterp spec fn table_rows(t: Table) -> Seq<Seq<CellView>>;

/// The title row of a table, if it has one, as the views of its cells.
pub uninterp spec fn table_titles(t: Table) -> Option<Seq<CellView>>;

/// The format (borders, separators, padding) of a table.
pub uninterp spec fn table_format(t: Table) -> TableFormat;

/// Relies on `prettytable::Row::new` and `prettytable::Table::add_row`: the
/// row holding `cells`, as they are, is appended after the table's rows;
/// the titles and the format are left as they were.
#[verifier::external_body]
fn table_add_row(table: &mut Table, cells: Vec<Cell>)
    ensures
        table_rows(*final(table)) == table_rows(*old(table)).push(
            cells@.map_values(|c: Cell| cell_view(c)),
        ),
        table_titles(*final(table)) == table_titles(*old(table)),
        table_format(*final(table)) == table_format(*old(table)),
{
    table.add_row(Row::new(cells));
}

/// Whether at least one cell of the row matches the regex compiled from
/// `pattern`.
pub open spec fn row_matches<'a>(cells: Seq<CellSpec<'a>>, pattern: Seq<char>) -> bool {
    exists|j: int| 0 <= j < cells.len() && #[trigger] cells[j].matches_spec(pattern)
}

/// The rows kept by the regex compiled from `pattern`, in their order.
pub open spec fn filtered<'a, T>(rows: Seq<(T, Vec<CellSpec<'a>>)>, pattern: Seq<char>) -> Seq<
    (T, Vec<CellSpec<'a>>),
> {
    rows.filter(|row: (T, Vec<CellSpec<'a>>)| row_matches(row.1@, pattern))
}

/// Whether `out` is the rendering of `cells`, cell by cell, for the row at
/// `position`.
pub open spec fn renders_row<'a>(
    out: Seq<RenderedCell<'a>>,
    cells: Seq<CellSpec<'a>>,
    position: nat,
) -> bool {
    &&& out.len() == cells.len()
    &&& forall|j: int|
        0 <= j < cells.len() ==> {
            &&& (#[trigger] out[j]).text@ == cells[j].rendered_text(position)
            &&& out[j].style == cells[j].style
            &&& out[j].align == cells[j].align
        }
}

/// The views of the cells built for a row rendered at `position`.
pub open spec fn row_views<'a>(cells: Seq<CellSpec<'a>>, position: nat) -> Seq<CellView> {
    cells.map_values(|c: CellSpec<'a>| c.cell_view_spec(position))
}

/// The table rows for `rows`, each rendered at its index in `rows`.
pub open spec fn table_views<'a, T>(rows: Seq<(T, Vec<CellSpec<'a>>)>) -> Seq<Seq<CellView>> {
    Seq::new(rows.len(), |i: int| row_views(rows[i].1@, i as nat))
}

/// Whether at least one cell of the row matches the pattern.
pub fn row_has_match<'a>(cells: &Vec<CellSpec<'a>>, regex: &Pattern) -> (r: bool)
    ensures
        r == row_matches(cells@, regex@),
{
    let mut has_match = false;
    let mut j: usize = 0;
    while j < cells.len() && !has_match
        invariant
            j <= cells.len(),
            has_match ==> row_matches(cells@, regex@),
            !has_match ==> forall|k: int| 0 <= k < j ==> !(#[trigger] cells@[k]).matches_spec(
                regex@,
            ),
        decreases cells.len() - j,
    {
        has_match = cells[j].matches(regex);
        j = j + 1;
    }
    has_match
}

/// Keeps the rows in which at least one cell matches the regex, in their
/// order. Without a regex every row is kept.
pub fn filter<'a, T>(things: Vec<(T, Vec<CellSpec<'a>>)>, regex: Option<&Pattern>) -> (r: Vec<
    (T, Vec<CellSpec<'a>>),
>)
    ensures
        regex is None ==> r@ == things@,
        regex matches Some(p) ==> r@ == filtered(things@, p@),
{
    match regex {
        None => things,
        Some(p) => {
            let ghost all = things@;
            let mut kept: Vec<(T, Vec<CellSpec<'a>>)> = Vec::new();
            for thing in iter: things.into_iter()
                invariant
                    iter.seq() == all,
                    kept@ == filtered(all.take(iter.index() as int), p@),
            {
                let has_match = row_has_match(&thing.1, p);
                proof {
                    broadcast use Seq::lemma_filter_push;

                    assert(all.take(iter.index() + 1) =~= all.take(iter.index() as int).push(thing));
                }
                if has_match {
                    kept.push(thing);
                }
            }
            proof {
                assert(all.take(all.len() as int) =~= all);
            }
            kept
        },
    }
}

/// Renders each cell of a row for the row at `position`.
pub fn render_row<'a>(cells: &Vec<CellSpec<'a>>, position: usize) -> (r: Vec<RenderedCell<'a>>)
    ensures
        renders_row(r@, cells@, position as nat),
{
    let mut out: Vec<RenderedCell<'a>> = Vec::new();
    let mut j: usize = 0;
    while j < cells.len()
        invariant
            j <= cells.len(),
            renders_row(out@, cells@.subrange(0, j as int), position as nat),
        decreases cells.len() - j,
    {
        out.push(cells[j].render(position));
        j = j + 1;
    }
    proof {
        assert(cells@.subrange(0, j as int) =~= cells@);
    }
    out
}

/// Renders every row, in order; each row's position is its index in
/// `specs`, counted from zero.
pub fn build_rows<'a, T>(specs: &Vec<(T, Vec<CellSpec<'a>>)>) -> (r: Vec<Vec<RenderedCell<'a>>>)
    ensures
        r@.len() == specs@.len(),
        forall|i: int|
            0 <= i < specs@.len() ==> renders_row((#[trigger] r@[i])@, specs@[i].1@, i as nat),
{
    let mut out: Vec<Vec<RenderedCell<'a>>> = Vec::new();
    let mut i: usize = 0;
    while i < specs.len()
        invariant
            i <= specs@.len(),
            out@.len() == i,
            forall|k: int|
                0 <= k < i ==> renders_row((#[trigger] out@[k])@, specs@[k].1@, k as nat),
        decreases specs.len() - i,
    {
        out.push(render_row(&specs[i].1, i));
        i = i + 1;
    }
    out
}

/// Builds the table cells of a row for the row at `position`.
fn row_cells<'a>(cells: &Vec<CellSpec<'a>>, position: usize) -> (r: Vec<Cell>)
    ensures
        r@.map_values(|c: Cell| cell_view(c)) == row_views(cells@, position as nat),
{
    let mut out: Vec<Cell> = Vec::new();
    let mut j: usize = 0;
    while j < cells.len()
        invariant
            j <= cells.len(),
            out@.len() == j,
            forall|k: int|
                0 <= k < j ==> cell_view(#[trigger] out@[k]) == cells@[k].cell_view_spec(
                    position as nat,
                ),
        decreases cells.len() - j,
    {
        out.push(cells[j].to_cell(position));
        j = j + 1;
    }
    assert(out@.map_values(|c: Cell| cell_view(c)) =~= row_views(cells@, position as nat));
    out
}

/// Appends one row to the table for each row of `specs`, in order: the
/// cells of the row at index `i` of `specs`, rendered at position `i`.
pub fn add_to_table<'a, T>(table: &mut Table, specs: &Vec<(T, Vec<CellSpec<'a>>)>)
    ensures
        table_rows(*final(table)) == table_rows(*old(table)) + table_views(specs@),
        table_titles(*final(table)) == table_titles(*old(table)),
        table_format(*final(table)) == table_format(*old(table)),
        specs@.len() == 0 ==> *final(table) == *old(table),
{
    let ghost start = table_rows(*table);
    let mut index: usize = 0;
    while index < specs.len()
        invariant
            index <= specs@.len(),
            table_rows(*table) == start + table_views(specs@.subrange(0, index as int)),
            table_titles(*table) == table_titles(*old(table)),
            table_format(*table) == table_format(*old(table)),
            index == 0 ==> *table == *old(table),
        decreases specs.len() - index,
    {
        let row_vec = row_cells(&specs[index].1, index);
        table_add_row(table, row_vec);
        proof {
            assert(table_views(specs@.subrange(0, index + 1)) =~= table_views(
                specs@.subrange(0, index as int),
            ).push(row_views(specs@[index as int].1@, index as nat)));
        }
        index = index + 1;
    }
    proof {
        assert(specs@.subrange(0, index as int) =~= specs@);
    }
}

} // verus!
