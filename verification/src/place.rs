//! Placement of items into the cells of a grid, row by row.

use vstd::prelude::*;

verus! {

/// One slot of the grid.
#[derive(Debug, PartialEq, Eq)]
pub enum Cell<T> {
    /// A cell that holds an item, centered on both axes.
    Item(T),
    /// A cell that takes up room and shows nothing.
    Placeholder,
}

/// What stands in the cell with running number `index`, counted row by row:
/// the item with that number, or a placeholder once the items have run out.
pub open spec fn spec_cell_at<T>(items: Seq<T>, index: int) -> Cell<T> {
    if 0 <= index < items.len() {
        Cell::Item(items[index])
    } else {
        Cell::Placeholder
    }
}

/// The row with number `row` of a grid of `columns` columns.
pub open spec fn spec_row<T>(items: Seq<T>, columns: int, row: int) -> Seq<Cell<T>> {
    Seq::new(columns as nat, |column: int| spec_cell_at(items, row * columns + column))
}

/// The rows of a grid of `rows` by `columns` cells, filled in row-major
/// order.
pub open spec fn spec_place<T>(items: Seq<T>, rows: int, columns: int) -> Seq<Seq<Cell<T>>> {
    Seq::new(rows as nat, |row: int| spec_row(items, columns, row))
}

/// The rows that have been placed so far, as sequences of cells.
pub open spec fn rows_view<T>(rows: Seq<Vec<Cell<T>>>) -> Seq<Seq<Cell<T>>> {
    Seq::new(rows.len(), |row: int| rows[row]@)
}

/// Whether `stack` holds the items of `source` from number `taken` on, the
/// next one on top.
pub open spec fn holds_rest<T>(stack: Seq<T>, source: Seq<T>, taken: int) -> bool {
    &&& 0 <= taken <= source.len()
    &&& stack.len() == source.len() - taken
    &&& forall|i: int| 0 <= i < stack.len() ==> #[trigger] stack[i] == source[source.len() - 1 - i]
}

/// Turns `items` over, so that the first item is the one that `pop` hands
/// out first.
fn into_stack<T>(items: Vec<T>) -> (stack: Vec<T>)
    ensures
        holds_rest(stack@, items@, 0),
{
    let ghost source = items@;
    let mut items = items;
    let mut stack: Vec<T> = Vec::new();
    while items.len() > 0
        invariant
            items@.len() <= source.len(),
            items@ == source.subrange(0, items@.len() as int),
            stack@.len() == source.len() - items@.len(),
            forall|i: int|
                0 <= i < stack@.len() ==> #[trigger] stack@[i] == source[source.len() - 1 - i],
        decreases items@.len(),
    {
        let ghost before = items@;
        match items.pop() {
            Some(item) => {
                assert(item == source[before.len() - 1]);
                stack.push(item);
            },
            None => {},
        }
    }
    stack
}

/// Fills a grid of `rows` by `columns` cells from `items`, row by row and
/// left to right within a row. Every row gets exactly `columns` cells; the
/// cells for which no item is left are placeholders.
pub fn place_cells<T>(rows: usize, columns: usize, items: Vec<T>) -> (grid: Vec<Vec<Cell<T>>>)
    ensures
        rows_view(grid@) == spec_place(items@, rows as int, columns as int),
        grid@.len() == rows,
        forall|row: int| 0 <= row < rows ==> (#[trigger] grid@[row])@.len() == columns,
{
    let ghost source = items@;
    let mut rest = into_stack(items);
    let mut grid: Vec<Vec<Cell<T>>> = Vec::new();
    let mut row: usize = 0;
    let ghost mut taken: int = 0;
    assert(rows_view(grid@) =~= spec_place(source, 0, columns as int));
    while row < rows
        invariant
            row <= rows,
            grid@.len() == row,
            rows_view(grid@) == spec_place(source, row as int, columns as int),
            taken == (if row * columns < source.len() {
                row * columns
            } else {
                source.len() as int
            }),
            holds_rest(rest@, source, taken),
        decreases rows - row,
    {
        let mut cells: Vec<Cell<T>> = Vec::new();
        let mut column: usize = 0;
        while column < columns
            invariant
                column <= columns,
                cells@.len() == column,
                forall|c: int|
                    0 <= c < column ==> #[trigger] cells@[c] == spec_cell_at(
                        source,
                        row * columns + c,
                    ),
                taken == (if row * columns + column < source.len() {
                    row * columns + column
                } else {
                    source.len() as int
                }),
                holds_rest(rest@, source, taken),
            decreases columns - column,
        {
            assert(row * columns >= 0) by (nonlinear_arith)
                requires
                    row >= 0,
                    columns >= 0,
            ;
            let cell = match rest.pop() {
                Some(item) => Cell::Item(item),
                None => Cell::Placeholder,
            };
            proof {
                if taken < source.len() {
                    taken = taken + 1;
                }
            }
            cells.push(cell);
            column = column + 1;
        }
        proof {
            assert(row * columns + columns == (row + 1) * columns) by (nonlinear_arith);
            assert(cells@ =~= spec_row(source, columns as int, row as int));
        }
        let ghost before = grid@;
        grid.push(cells);
        row = row + 1;
        proof {
            assert forall|r: int| 0 <= r < row implies rows_view(grid@)[r] == spec_place(
                source,
                row as int,
                columns as int,
            )[r] by {
                if r < row - 1 {
                    assert(grid@[r] == before[r]);
                    assert(rows_view(before)[r] == before[r]@);
                }
            }
            assert(rows_view(grid@) =~= spec_place(source, row as int, columns as int));
        }
    }
    proof {
        assert forall|r: int| 0 <= r < rows implies (#[trigger] grid@[r])@.len() == columns by {
            assert(rows_view(grid@)[r] == grid@[r]@);
        }
    }
    grid
}

} // verus!
