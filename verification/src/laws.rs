//! What holds of every grid, stated over the same spec functions as the
//! contracts of the functions that build one.

use vstd::prelude::*;
use crate::arrange::{
    lemma_row_count_is_ceiling, spec_arrange, spec_cell_extent, spec_room, spec_row_count,
};
use crate::count::LengthHint;
use crate::grid::{spec_layout, spec_new, GridView, LayoutView};
use crate::length::Size;
use crate::place::{spec_cell_at, spec_place, spec_row, Cell};

verus! {

/// The number of rows is the number of items divided by the number of
/// columns, rounded up: it is the one number whose rows have room for every
/// item while one row less would not. It is zero exactly for no items.
pub proof fn lemma_row_count(item_count: nat, columns: nat)
    requires
        columns >= 1,
    ensures
        spec_row_count(item_count, columns) * columns >= item_count,
        (spec_row_count(item_count, columns) - 1) * columns < item_count,
        spec_row_count(item_count, columns) == 0 <==> item_count == 0,
        item_count % columns == 0 ==> spec_row_count(item_count, columns) == item_count / columns,
        item_count % columns != 0 ==> spec_row_count(item_count, columns) == item_count / columns
            + 1,
{
    lemma_row_count_is_ceiling(item_count, columns);
    let n = item_count as int;
    let c = columns as int;
    if item_count == 0 {
        assert((0 - 1) * c < 0) by (nonlinear_arith)
            requires
                c >= 1,
        ;
    } else {
        let q = (n - 1) / c;
        let r = (n - 1) % c;
        vstd::arithmetic::div_mod::lemma_fundamental_div_mod(n - 1, c);
        vstd::arithmetic::div_mod::lemma_mod_bound(n - 1, c);
        assert(n == q * c + (r + 1)) by (nonlinear_arith)
            requires
                n - 1 == c * q + r,
        ;
        if r + 1 == c {
            assert(n == (q + 1) * c + 0) by (nonlinear_arith)
                requires
                    n == q * c + (r + 1),
                    r + 1 == c,
            ;
            vstd::arithmetic::div_mod::lemma_fundamental_div_mod_converse(n, c, q + 1, 0);
        } else {
            vstd::arithmetic::div_mod::lemma_fundamental_div_mod_converse(n, c, q, r + 1);
        }
    }
}

/// The cells of one row, together with the gaps between them, take up the
/// width of the content box exactly: `tracks` times the extent of a cell
/// plus `tracks - 1` gaps is the content. The same holds of the cells of one
/// column and the height.
pub proof fn lemma_cells_fill_content(content: i64, spacing: u32, tracks: usize)
    requires
        tracks >= 1,
    ensures
        spec_cell_extent(content as int, spacing as int, tracks as int).denominator == tracks,
        spec_cell_extent(content as int, spacing as int, tracks as int).numerator == content - (
        tracks - 1) * spacing,
        spec_cell_extent(content as int, spacing as int, tracks as int).covers(
            tracks as int,
            content - (tracks - 1) * spacing,
        ),
        tracks * spec_cell_extent(content as int, spacing as int, tracks as int).numerator + (tracks
            - 1) * spacing * tracks == content * tracks,
{
    let extent = spec_cell_extent(content as int, spacing as int, tracks as int);
    let room = spec_room(content as int, spacing as int, tracks as int);
    let gaps = tracks - 1;
    assert(0 <= spacing * gaps <= 0xffff_ffff * 0xffff_ffff_ffff_ffff) by (nonlinear_arith)
        requires
            0 <= spacing <= 0xffff_ffff,
            0 <= gaps <= 0xffff_ffff_ffff_ffff,
    ;
    assert(extent.numerator == room);
    assert(gaps * spacing == spacing * gaps) by (nonlinear_arith);
    assert(tracks * room + gaps * spacing * tracks == content * tracks) by (nonlinear_arith)
        requires
            room == content - spacing * gaps,
    ;
    assert(tracks * room == (content - gaps * spacing) * tracks) by (nonlinear_arith)
        requires
            room == content - spacing * gaps,
    ;
}

/// The same in numbers: `tracks` cells of the extent's value and the gaps
/// between them add up to the content.
pub proof fn lemma_cells_fill_content_value(content: i64, spacing: u32, tracks: usize)
    requires
        tracks >= 1,
    ensures
        tracks as real * spec_cell_extent(content as int, spacing as int, tracks as int).value() + (
        tracks - 1) as real * spacing as real == content as real,
{
    lemma_cells_fill_content(content, spacing, tracks);
    let extent = spec_cell_extent(content as int, spacing as int, tracks as int);
    let gaps = tracks - 1;
    let t = tracks as real;
    let n = extent.numerator as real;
    assert(gaps * spacing == spacing * gaps) by (nonlinear_arith);
    assert(extent.numerator == content - spacing * gaps);
    assert(extent.denominator as real == t);
    assert(t * (n / t) == n) by (nonlinear_arith)
        requires
            t >= 1real,
    ;
    assert((spacing * gaps) as real == gaps as real * spacing as real) by (nonlinear_arith);
    assert(n == content as real - (spacing * gaps) as real);
}

/// Every cell of a grid has the same extent: the arrangement gives one
/// width and one height, which leave exactly the content box once the gaps
/// are added.
pub proof fn lemma_arrangement_fills_content(
    columns: usize,
    item_count: usize,
    content_width: i64,
    content_height: i64,
    horizontal_spacing: u32,
    vertical_spacing: u32,
)
    requires
        columns >= 1,
        item_count >= 1,
    ensures
        spec_arrange(
            columns,
            item_count,
            content_width,
            content_height,
            horizontal_spacing,
            vertical_spacing,
        ) matches Some(shape) && shape.columns == columns && shape.rows == spec_row_count(
            item_count as nat,
            columns as nat,
        ) && shape.cell_width.covers(
            columns as int,
            content_width - (columns - 1) * horizontal_spacing,
        ) && shape.cell_height.covers(
            shape.rows as int,
            content_height - (shape.rows - 1) * vertical_spacing,
        ),
{
    lemma_row_count_is_ceiling(item_count as nat, columns as nat);
    let rows = spec_row_count(item_count as nat, columns as nat) as usize;
    lemma_cells_fill_content(content_width, horizontal_spacing, columns);
    lemma_cells_fill_content(content_height, vertical_spacing, rows);
}

/// The number of items in the last row of a grid that holds `item_count`
/// items: the remainder of the division by the number of columns, or a full
/// row where the division leaves none.
pub open spec fn spec_last_row_items(item_count: nat, columns: nat) -> nat {
    if item_count % columns == 0 {
        columns
    } else {
        item_count % columns
    }
}

/// In a grid that holds all its items, every row but the last is full of
/// items, and the last row starts with `spec_last_row_items` items, after
/// which only placeholders follow.
pub proof fn lemma_last_row<T>(items: Seq<T>, columns: nat)
    requires
        columns >= 1,
        items.len() >= 1,
    ensures
        ({
            let rows = spec_row_count(items.len(), columns);
            let grid = spec_place(items, rows as int, columns as int);
            let filled = spec_last_row_items(items.len(), columns);
            &&& grid.len() == rows
            &&& 1 <= filled <= columns
            &&& forall|row: int| 0 <= row < rows ==> (#[trigger] grid[row]).len() == columns
            &&& forall|row: int, column: int|
                0 <= row < rows - 1 && 0 <= column < columns ==> #[trigger] grid[row][column]
                    == Cell::Item(items[row * columns + column])
            &&& forall|column: int|
                0 <= column < filled ==> #[trigger] grid[rows - 1][column] == Cell::Item(
                    items[(rows - 1) * columns + column],
                )
            &&& forall|column: int|
                filled <= column < columns ==> #[trigger] grid[rows - 1][column]
                    == Cell::<T>::Placeholder
        }),
{
    let n = items.len() as int;
    let c = columns as int;
    let rows = spec_row_count(items.len(), columns) as int;
    let grid = spec_place(items, rows, c);
    let filled = spec_last_row_items(items.len(), columns) as int;
    lemma_row_count(items.len(), columns);
    vstd::arithmetic::div_mod::lemma_fundamental_div_mod(n, c);
    vstd::arithmetic::div_mod::lemma_mod_bound(n, c);
    assert((rows - 1) * c + filled == n) by {
        if n % c == 0 {
            assert((n / c - 1) * c + c == c * (n / c)) by (nonlinear_arith);
        } else {
            assert((n / c + 1 - 1) * c == c * (n / c)) by (nonlinear_arith);
        }
    }
    assert forall|row: int, column: int|
        0 <= row < rows - 1 && 0 <= column < c implies #[trigger] grid[row][column] == Cell::Item(
        items[row * c + column],
    ) by {
        assert(row * c + column < (rows - 1) * c && row * c + column >= 0) by (nonlinear_arith)
            requires
                0 <= row < rows - 1,
                0 <= column < c,
        ;
        assert(grid[row][column] == spec_cell_at(items, row * c + column));
    }
    assert forall|column: int| 0 <= column < filled implies #[trigger] grid[rows - 1][column]
        == Cell::Item(items[(rows - 1) * c + column]) by {
        assert((rows - 1) * c >= 0) by (nonlinear_arith)
            requires
                rows >= 1,
                c >= 1,
        ;
        assert(grid[rows - 1][column] == spec_cell_at(items, (rows - 1) * c + column));
    }
    assert forall|column: int| filled <= column < c implies #[trigger] grid[rows - 1][column]
        == Cell::<T>::Placeholder by {
        assert(grid[rows - 1][column] == spec_cell_at(items, (rows - 1) * c + column));
    }
}

/// A grid made with no columns is the grid made with one column, and so is
/// every layout of it.
pub proof fn lemma_zero_columns_is_one<T>(items: Seq<T>, hint: LengthHint, available: Size)
    ensures
        spec_new(0, items) == spec_new(1, items),
        spec_layout(spec_new(0, items), hint, available) == spec_layout(
            spec_new(1, items),
            hint,
            available,
        ),
{
}

/// A layout pass has no memory: two layouts of the same grid, for the same
/// hint and the same room, are the same in every part.
pub proof fn lemma_layout_is_repeatable<T>(
    grid: GridView<T>,
    hint: LengthHint,
    available: Size,
    first: LayoutView<T>,
    second: LayoutView<T>,
)
    requires
        first == spec_layout(grid, hint, available),
        second == spec_layout(grid, hint, available),
    ensures
        first == second,
        first.size == second.size,
        first.arrangement == second.arrangement,
        first.rows == second.rows,
{
}

} // verus!
