use vstd::prelude::*;
use crate::cell::{cell_view, CellSpec, RenderedCell};
use prettytable::Cell;
use crate::decimal::decimal_text;
use crate::table::{filtered, renders_row, row_matches};

verus! {

/// Filtering keeps the rows' order: the rows kept from `a` followed by `b`
/// are those kept from `a`, then those kept from `b`.
pub proof fn lemma_filter_keeps_order<'a, T>(
    a: Seq<(T, Vec<CellSpec<'a>>)>,
    b: Seq<(T, Vec<CellSpec<'a>>)>,
    pattern: Seq<char>,
)
    ensures
        filtered(a + b, pattern) == filtered(a, pattern) + filtered(b, pattern),
{
    broadcast use Seq::filter_distributes_over_add;

}

/// A row whose cells are all position cells never matches, so any regex
/// drops it.
pub proof fn lemma_index_row_never_matches<'a, T>(row: (T, Vec<CellSpec<'a>>), pattern: Seq<char>)
    requires
        forall|j: int| 0 <= j < row.1@.len() ==> (#[trigger] row.1@[j]).content() is None,
    ensures
        !row_matches(row.1@, pattern),
        filtered(seq![row], pattern) =~= Seq::<(T, Vec<CellSpec<'a>>)>::empty(),
{
    let cells = row.1@;
    assert forall|j: int| 0 <= j < cells.len() implies !(#[trigger] cells[j]).matches_spec(
        pattern,
    ) by {
        assert(cells[j].content() is None);
    }
    let none = Seq::<(T, Vec<CellSpec<'a>>)>::empty();
    broadcast use Seq::lemma_filter_push;

    assert(seq![row] =~= none.push(row));
    assert(filtered(none, pattern) =~= none);
}

/// Positions are those of the final row sequence: in rows rendered with
/// their index in that sequence, a position cell of the row at `i` shows
/// `i`, whatever the row's place was before filtering.
pub proof fn lemma_positions_dense<'a, T>(
    out: Seq<Vec<RenderedCell<'a>>>,
    rows: Seq<(T, Vec<CellSpec<'a>>)>,
    i: int,
    j: int,
)
    requires
        out.len() == rows.len(),
        forall|k: int| 0 <= k < rows.len() ==> renders_row((#[trigger] out[k])@, rows[k].1@, k as nat),
        0 <= i < rows.len(),
        0 <= j < rows[i].1@.len(),
        rows[i].1@[j].content() is None,
    ensures
        out[i]@[j].text@ == decimal_text(i as nat),
{
    assert(renders_row(out[i]@, rows[i].1@, i as nat));
}

/// Rendering has no hidden state: two renderings of one cell at one
/// position agree in text, style and alignment.
pub proof fn lemma_render_deterministic<'a>(
    c: CellSpec<'a>,
    position: nat,
    r1: RenderedCell<'a>,
    r2: RenderedCell<'a>,
)
    requires
        r1.text@ == c.rendered_text(position),
        r1.style == c.style,
        r1.align == c.align,
        r2.text@ == c.rendered_text(position),
        r2.style == c.style,
        r2.align == c.align,
    ensures
        r1.text@ == r2.text@,
        r1.style == r2.style,
        r1.align == r2.align,
{
}

/// Building a table cell has no hidden state: two cells built from one
/// cell spec at one position have the same lines, attributes, alignment and
/// span.
pub proof fn lemma_to_cell_deterministic<'a>(c: CellSpec<'a>, position: nat, r1: Cell, r2: Cell)
    requires
        cell_view(r1) == c.cell_view_spec(position),
        cell_view(r2) == c.cell_view_spec(position),
    ensures
        cell_view(r1) == cell_view(r2),
{
}

/// Borrowed and owned text render alike: two cell specs with the same text,
/// style and alignment give the same table cell at every position.
pub proof fn lemma_borrowed_owned_alike<'a>(c1: CellSpec<'a>, c2: CellSpec<'a>, position: nat)
    requires
        c1.content() == c2.content(),
        c1.style == c2.style,
        c1.align == c2.align,
    ensures
        c1.cell_view_spec(position) == c2.cell_view_spec(position),
        c1.rendered_text(position) == c2.rendered_text(position),
{
}

/// A text cell ignores the position: it gives the same table cell, holding
/// its stored text, at every position.
pub proof fn lemma_text_cell_ignores_position<'a>(c: CellSpec<'a>, i: nat, j: nat)
    requires
        c.content() is Some,
    ensures
        c.cell_view_spec(i) == c.cell_view_spec(j),
        c.rendered_text(i) == c.content()->0,
{
}

/// The positions, in increasing order, of the rows that filtering keeps.
pub proof fn filter_indices<'a, T>(rows: Seq<(T, Vec<CellSpec<'a>>)>, pattern: Seq<char>) -> (idx:
    Seq<int>)
    ensures
        idx.len() == filtered(rows, pattern).len(),
        forall|k: int|
            0 <= k < idx.len() ==> 0 <= #[trigger] idx[k] < rows.len() && filtered(rows, pattern)[k]
                == rows[idx[k]],
        forall|k1: int, k2: int| 0 <= k1 < k2 < idx.len() ==> idx[k1] < idx[k2],
    decreases rows.len(),
{
    if rows.len() == 0 {
        Seq::empty()
    } else {
        let pre = rows.drop_last();
        let x = rows.last();
        let sub = filter_indices(pre, pattern);
        broadcast use Seq::lemma_filter_push;

        assert(rows =~= pre.push(x));
        if row_matches(x.1@, pattern) {
            let idx = sub.push(rows.len() - 1);
            assert forall|k: int| 0 <= k < idx.len() implies 0 <= #[trigger] idx[k] < rows.len()
                && filtered(rows, pattern)[k] == rows[idx[k]] by {
                if k < sub.len() {
                    assert(idx[k] == sub[k]);
                }
            }
            idx
        } else {
            sub
        }
    }
}

/// Filtering never reorders rows: the kept rows are the rows at strictly
/// increasing positions of the input.
pub proof fn lemma_filter_is_subsequence<'a, T>(rows: Seq<(T, Vec<CellSpec<'a>>)>, pattern: Seq<char>)
    ensures
        exists|idx: Seq<int>|
            {
                &&& idx.len() == filtered(rows, pattern).len()
                &&& forall|k: int|
                    0 <= k < idx.len() ==> 0 <= #[trigger] idx[k] < rows.len() && filtered(
                        rows,
                        pattern,
                    )[k] == rows[idx[k]]
                &&& forall|k1: int, k2: int| 0 <= k1 < k2 < idx.len() ==> idx[k1] < idx[k2]
            },
{
    let idx = filter_indices(rows, pattern);
}

} // verus!
