//! Tables as rows of cells, drawn by `term_table`.

use term_table::row::Row;
use term_table::table_cell::{Alignment, TableCell};
use term_table::{Table, TableStyle};
use vstd::prelude::*;

verus! {

#[verifier::external_type_specification]
#[verifier::external_body]
pub struct ExTableStyle(TableStyle);

/// One cell of a table row: its text and the number of columns it covers.
/// Every cell is aligned to the left.
pub struct Cell {
    pub text: String,
    pub col_span: usize,
}

impl View for Cell {
    type V = (Seq<char>, nat);

    open spec fn view(&self) -> (Seq<char>, nat) {
        (self.text@, self.col_span as nat)
    }
}

/// The rows of a table as plain values, top row first.
pub open spec fn layout_of(rows: Seq<Vec<Cell>>) -> Seq<Seq<(Seq<char>, nat)>> {
    Seq::new(rows.len(), |r: int| Seq::new(rows[r]@.len(), |c: int| rows[r]@[c]@))
}

/// The number of columns that the cells of a row cover together.
pub open spec fn columns_of(row: Seq<(Seq<char>, nat)>) -> nat
    decreases row.len(),
{
    if row.len() == 0 {
        0
    } else {
        columns_of(row.drop_last()) + row.last().1
    }
}

/// A layout that the renderer is handed: no row is empty, every cell covers
/// at least one column, and all rows cover the same two columns at most.
pub open spec fn regular(layout: Seq<Seq<(Seq<char>, nat)>>) -> bool {
    forall|r: int|
        0 <= r < layout.len() ==> {
            &&& (#[trigger] layout[r]).len() > 0
            &&& forall|c: int| 0 <= c < layout[r].len() ==> (#[trigger] layout[r][c]).1 >= 1
            &&& columns_of(layout[r]) == columns_of(layout[0])
            &&& columns_of(layout[r]) <= 2
        }
}

/// The text that `term_table` draws for a table with these rows, this style
/// and this limit on the width of a column.
pub uninterp spec fn rendered_table(
    layout: Seq<Seq<(Seq<char>, nat)>>,
    style: TableStyle,
    max_width: usize,
) -> Seq<char>;

/// Builds a `term_table::Table` with `Table::new`, gives it the style and the
/// column limit, adds one `Row` per row with a left-aligned `TableCell` per
/// cell, and calls `Table::render`. Believed of it: the text depends on the
/// rows, the style and the limit alone.
#[verifier::external_body]
#[allow(deprecated)]
pub(crate) fn render(rows: &Vec<Vec<Cell>>, style: TableStyle, max_width: usize) -> (text: String)
    requires
        regular(layout_of(rows@)),
    ensures
        text@ == rendered_table(layout_of(rows@), style, max_width),
{
    let mut table = Table::new();
    table.max_column_width = max_width;
    table.style = style;
    for row in rows.iter() {
        let cells = row.iter().map(
            |cell| TableCell::new_with_alignment(&cell.text, cell.col_span, Alignment::Left),
        );
        table.add_row(Row::new(cells));
    }
    table.render()
}

} // verus!
