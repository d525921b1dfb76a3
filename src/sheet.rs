use vstd::prelude::*;

use crate::model::{texts_view, Table};

verus! {

/// One text cell of the worksheet, at a zero-based row and column.
pub struct Cell {
    pub row: usize,
    pub col: usize,
    pub text: String,
}

impl Cell {
    pub open spec fn view(&self) -> (nat, nat, Seq<char>) {
        (self.row as nat, self.col as nat, self.text@)
    }
}

/// The cells that a sequence of cell values becomes.
pub open spec fn cells_view(v: Seq<Cell>) -> Seq<(nat, nat, Seq<char>)> {
    v.map_values(|c: Cell| c@)
}

/// One row of texts laid out left to right from column 0 on row `r`.
pub open spec fn row_layout(r: nat, texts: Seq<Seq<char>>) -> Seq<(nat, nat, Seq<char>)> {
    Seq::new(texts.len(), |c: int| (r, c as nat, texts[c]))
}

/// The data rows laid out in order, the `i`-th of them on row `i + 1`.
pub open spec fn data_layout(rows: Seq<Seq<Seq<char>>>) -> Seq<(nat, nat, Seq<char>)>
    decreases rows.len(),
{
    if rows.len() == 0 {
        Seq::empty()
    } else {
        data_layout(rows.drop_last()) + row_layout(rows.len(), rows.last())
    }
}

/// The worksheet of a table: the header on row 0, then the data rows.
pub open spec fn sheet_layout(header: Seq<Seq<char>>, rows: Seq<Seq<Seq<char>>>) -> Seq<
    (nat, nat, Seq<char>),
> {
    row_layout(0, header) + data_layout(rows)
}

/// Appends the cells of one row, left to right from column 0.
pub fn push_row(out: &mut Vec<Cell>, row: usize, texts: &Vec<String>)
    ensures
        cells_view(final(out)@) == cells_view(old(out)@) + row_layout(
            row as nat,
            texts_view(texts@),
        ),
{
    let ghost start = cells_view(out@);
    let mut c: usize = 0;
    while c < texts.len()
        invariant
            c <= texts.len(),
            cells_view(out@) == start + row_layout(row as nat, texts_view(texts@.take(c as int))),
        decreases texts.len() - c,
    {
        let ghost before = out@;
        out.push(Cell { row, col: c, text: texts[c].clone() });
        assert(cells_view(out@) =~= cells_view(before).push((row as nat, c as nat, texts@[c as int]@)));
        assert(row_layout(row as nat, texts_view(texts@.take(c + 1))) =~= row_layout(
            row as nat,
            texts_view(texts@.take(c as int)),
        ).push((row as nat, c as nat, texts@[c as int]@)));
        assert(cells_view(out@) =~= start + row_layout(
            row as nat,
            texts_view(texts@.take(c + 1)),
        ));
        c = c + 1;
    }
    assert(texts@.take(c as int) =~= texts@);
}

/// The cells to write for a table, in writing order: the header across row 0,
/// then data row `i` across row `i + 1`; a short row leaves its trailing
/// columns blank.
pub fn sheet_cells(t: &Table) -> (r: Vec<Cell>)
    ensures
        cells_view(r@) == sheet_layout(t.header_view(), t.rows_view()),
{
    let mut out: Vec<Cell> = Vec::new();
    assert(cells_view(out@) =~= Seq::empty());
    push_row(&mut out, 0, &t.header);
    let mut i: usize = 0;
    assert(t.rows_view().take(0) =~= Seq::empty());
    while i < t.rows.len()
        invariant
            i <= t.rows.len(),
            cells_view(out@) == row_layout(0, t.header_view()) + data_layout(
                t.rows_view().take(i as int),
            ),
        decreases t.rows.len() - i,
    {
        push_row(&mut out, i + 1, &t.rows[i]);
        assert(t.rows_view().take(i + 1).drop_last() =~= t.rows_view().take(i as int));
        i = i + 1;
    }
    assert(t.rows_view().take(i as int) =~= t.rows_view());
    out
}

} // verus!
