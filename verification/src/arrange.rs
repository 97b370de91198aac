//! Division of a content box into rows and columns of equal cells.

use vstd::prelude::*;

verus! {

/// An exact extent: `numerator / denominator` layout units.
///
/// The fraction is not reduced, and the numerator is negative where the gaps
/// between cells take more room than the content box has.
#[derive(Clone, Copy, Debug, PartialEq, Eq, Structural)]
pub struct Extent {
    pub numerator: i128,
    pub denominator: usize,
}

/// The shape of an arranged grid and the extent of each of its cells.
#[derive(Clone, Copy, Debug, PartialEq, Eq, Structural)]
pub struct Arrangement {
    pub rows: usize,
    pub columns: usize,
    pub cell_width: Extent,
    pub cell_height: Extent,
}

/// The number of rows that `item_count` items fill, `columns` to a row: the
/// quotient rounded up.
pub open spec fn spec_row_count(item_count: nat, columns: nat) -> nat
    recommends
        columns >= 1,
{
    if item_count == 0 {
        0
    } else {
        ((item_count - 1) / (columns as int) + 1) as nat
    }
}

/// The room that is left for `tracks` cells in a box of `content` units once
/// the gaps of `spacing` units between neighbours are taken out.
pub open spec fn spec_room(content: int, spacing: int, tracks: int) -> int {
    content - spacing * (tracks - 1)
}

/// The extent of one of `tracks` equal cells in a box of `content` units.
pub open spec fn spec_cell_extent(content: int, spacing: int, tracks: int) -> Extent {
    Extent { numerator: spec_room(content, spacing, tracks) as i128, denominator: tracks as usize }
}

/// The arrangement of `item_count` items in `columns` columns within a
/// content box, or `None` where there is no item to arrange.
pub open spec fn spec_arrange(
    columns: usize,
    item_count: usize,
    content_width: i64,
    content_height: i64,
    horizontal_spacing: u32,
    vertical_spacing: u32,
) -> Option<Arrangement> {
    let rows = spec_row_count(item_count as nat, columns as nat);
    if rows == 0 {
        None
    } else {
        Some(
            Arrangement {
                rows: rows as usize,
                columns,
                cell_width: spec_cell_extent(
                    content_width as int,
                    horizontal_spacing as int,
                    columns as int,
                ),
                cell_height: spec_cell_extent(
                    content_height as int,
                    vertical_spacing as int,
                    rows as int,
                ),
            },
        )
    }
}

impl Extent {
    /// The extent as a number: the numerator divided by the denominator.
    pub open spec fn value(self) -> real {
        self.numerator as real / self.denominator as real
    }

    /// Whether `count` cells of this extent, laid side by side, cover
    /// `total` units exactly.
    pub open spec fn covers(self, count: int, total: int) -> bool {
        count * self.numerator == total * self.denominator
    }
}

/// `spec_row_count` is the least number of rows with room for every item.
pub proof fn lemma_row_count_is_ceiling(item_count: nat, columns: nat)
    requires
        columns >= 1,
    ensures
        spec_row_count(item_count, columns) * columns >= item_count,
        item_count > 0 ==> (spec_row_count(item_count, columns) - 1) * columns < item_count,
        spec_row_count(item_count, columns) == 0 <==> item_count == 0,
        spec_row_count(item_count, columns) <= item_count,
{
    if item_count > 0 {
        let n = (item_count - 1) as int;
        let c = columns as int;
        let q = n / c;
        assert(n == c * q + n % c && 0 <= n % c < c) by {
            vstd::arithmetic::div_mod::lemma_fundamental_div_mod(n, c);
            vstd::arithmetic::div_mod::lemma_mod_bound(n, c);
        }
        assert(q >= 0 && q <= n) by (nonlinear_arith)
            requires
                n == c * q + n % c,
                0 <= n % c < c,
                c >= 1,
                n >= 0,
        ;
        assert((q + 1) * c == c * q + c) by (nonlinear_arith);
        assert(q * c == c * q) by (nonlinear_arith);
    }
}

/// The number of rows that `item_count` items fill, `columns` to a row.
pub fn row_count(item_count: usize, columns: usize) -> (rows: usize)
    requires
        columns >= 1,
    ensures
        rows == spec_row_count(item_count as nat, columns as nat),
{
    if item_count == 0 {
        0
    } else {
        proof {
            lemma_row_count_is_ceiling(item_count as nat, columns as nat);
        }
        (item_count - 1) / columns + 1
    }
}

/// The extent of one of `tracks` equal cells that share a box of `content`
/// units with gaps of `spacing` units between them. Nothing is clamped: the
/// extent is negative where the gaps exceed the box.
pub fn cell_extent(content: i64, spacing: u32, tracks: usize) -> (extent: Extent)
    requires
        tracks >= 1,
    ensures
        extent == spec_cell_extent(content as int, spacing as int, tracks as int),
        extent.numerator == spec_room(content as int, spacing as int, tracks as int),
        extent.denominator == tracks,
{
    let gaps: u128 = (tracks - 1) as u128;
    assert(spacing * gaps <= 0xffff_ffff * 0xffff_ffff_ffff_ffff) by (nonlinear_arith)
        requires
            0 <= spacing <= 0xffff_ffff,
            0 <= gaps <= 0xffff_ffff_ffff_ffff,
    ;
    let total_spacing: u128 = spacing as u128 * gaps;
    Extent { numerator: content as i128 - total_spacing as i128, denominator: tracks }
}

/// Divides a content box among `item_count` items in `columns` columns.
///
/// Returns `None` exactly where there is no item, and otherwise the number
/// of rows together with the extent of a cell on each axis.
pub fn arrange_cells(
    columns: usize,
    item_count: usize,
    content_width: i64,
    content_height: i64,
    horizontal_spacing: u32,
    vertical_spacing: u32,
) -> (arrangement: Option<Arrangement>)
    requires
        columns >= 1,
    ensures
        arrangement == spec_arrange(
            columns,
            item_count,
            content_width,
            content_height,
            horizontal_spacing,
            vertical_spacing,
        ),
        arrangement is None <==> item_count == 0,
{
    let rows = row_count(item_count, columns);
    proof {
        lemma_row_count_is_ceiling(item_count as nat, columns as nat);
    }
    if rows == 0 {
        return None;
    }
    let cell_width = cell_extent(content_width, horizontal_spacing, columns);
    let cell_height = cell_extent(content_height, vertical_spacing, rows);
    Some(Arrangement { rows, columns, cell_width, cell_height })
}

} // verus!
