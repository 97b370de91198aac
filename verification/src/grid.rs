//! The grid itself: its configuration, and the pass that turns it into a
//! layout for a given amount of room.

use vstd::prelude::*;
use crate::arrange::{arrange_cells, spec_arrange, spec_row_count, Arrangement};
use crate::count::{count_items, spec_item_count, LengthHint};
use crate::length::{Length, Limits, Padding, Size};
use crate::place::{place_cells, rows_view, spec_place, Cell};

verus! {

/// A grid that arranges its items in equal-sized cells.
#[derive(Debug)]
pub struct Grid<T> {
    columns: usize,
    items: Vec<T>,
    horizontal_spacing: u32,
    vertical_spacing: u32,
    padding: Padding,
    width: Length,
    height: Length,
}

/// What a grid is made of, as plain values.
pub struct GridView<T> {
    pub columns: usize,
    pub items: Seq<T>,
    pub horizontal_spacing: u32,
    pub vertical_spacing: u32,
    pub padding: Padding,
    pub width: Length,
    pub height: Length,
}

/// The result of one layout pass: an outer box, inset by padding, that holds
/// the rows of the grid from top to bottom.
#[derive(Debug)]
pub struct Layout<T> {
    /// The outer box that the grid takes.
    pub size: Size,
    /// The inset between the outer box and the rows.
    pub padding: Padding,
    /// The gap between neighbouring cells of a row.
    pub horizontal_spacing: u32,
    /// The gap between neighbouring rows.
    pub vertical_spacing: u32,
    /// The shape of the grid and the extent of its cells; `None` for a grid
    /// without items.
    pub arrangement: Option<Arrangement>,
    /// The rows, each with one cell for every column.
    pub rows: Vec<Vec<Cell<T>>>,
}

/// A layout as plain values.
pub struct LayoutView<T> {
    pub size: Size,
    pub padding: Padding,
    pub horizontal_spacing: u32,
    pub vertical_spacing: u32,
    pub arrangement: Option<Arrangement>,
    pub rows: Seq<Seq<Cell<T>>>,
}

/// A column count as a grid keeps it: never less than one.
pub open spec fn spec_columns(columns: usize) -> usize {
    if columns < 1 {
        1
    } else {
        columns
    }
}

/// The grid that `Grid::new` makes.
pub open spec fn spec_new<T>(columns: usize, items: Seq<T>) -> GridView<T> {
    GridView {
        columns: spec_columns(columns),
        items,
        horizontal_spacing: 0,
        vertical_spacing: 0,
        padding: Padding { top: 0, right: 0, bottom: 0, left: 0 },
        width: Length::Fill,
        height: Length::Fill,
    }
}

/// The outer box of a grid with the given policies where `available` is the
/// room on offer. The grid has no size of its own to shrink to.
pub open spec fn spec_outer_size(width: Length, height: Length, available: Size) -> Size {
    Limits { min: Size { width: 0, height: 0 }, max: available }.spec_resolve(
        width,
        height,
        Size { width: 0, height: 0 },
    )
}

/// The layout of `grid` in `available` room, for a source with the given
/// length hint.
pub open spec fn spec_layout<T>(grid: GridView<T>, hint: LengthHint, available: Size) -> LayoutView<
    T,
> {
    let size = spec_outer_size(grid.width, grid.height, available);
    let item_count = spec_item_count(hint, grid.items.len());
    LayoutView {
        size,
        padding: grid.padding,
        horizontal_spacing: grid.horizontal_spacing,
        vertical_spacing: grid.vertical_spacing,
        arrangement: spec_arrange(
            grid.columns,
            item_count as usize,
            (size.width - grid.padding.spec_horizontal()) as i64,
            (size.height - grid.padding.spec_vertical()) as i64,
            grid.horizontal_spacing,
            grid.vertical_spacing,
        ),
        rows: spec_place(
            grid.items,
            spec_row_count(item_count, grid.columns as nat) as int,
            grid.columns as int,
        ),
    }
}

/// The column count that a grid keeps for a requested one: a request for no
/// columns counts as a request for one.
pub fn effective_columns(columns: usize) -> (kept: usize)
    ensures
        kept == spec_columns(columns),
        kept >= 1,
{
    if columns < 1 {
        1
    } else {
        columns
    }
}

impl<T> View for Grid<T> {
    type V = GridView<T>;

    closed spec fn view(&self) -> GridView<T> {
        GridView {
            columns: self.columns,
            items: self.items@,
            horizontal_spacing: self.horizontal_spacing,
            vertical_spacing: self.vertical_spacing,
            padding: self.padding,
            width: self.width,
            height: self.height,
        }
    }
}

impl<T> View for Layout<T> {
    type V = LayoutView<T>;

    open spec fn view(&self) -> LayoutView<T> {
        LayoutView {
            size: self.size,
            padding: self.padding,
            horizontal_spacing: self.horizontal_spacing,
            vertical_spacing: self.vertical_spacing,
            arrangement: self.arrangement,
            rows: rows_view(self.rows@),
        }
    }
}

impl<T> Grid<T> {
    #[verifier::type_invariant]
    spec fn has_a_column(self) -> bool {
        self.columns >= 1
    }

    /// Creates a grid with the given number of columns, which holds the
    /// given items. A column count of zero counts as one. The grid has no
    /// spacing and no padding, and fills the room on offer.
    pub fn new(columns: usize, items: Vec<T>) -> (grid: Grid<T>)
        ensures
            grid@ == spec_new(columns, items@),
            grid@.columns >= 1,
    {
        Grid {
            columns: effective_columns(columns),
            items,
            horizontal_spacing: 0,
            vertical_spacing: 0,
            padding: Padding::zero(),
            width: Length::Fill,
            height: Length::Fill,
        }
    }

    /// Sets the horizontal spacing between grid elements.
    pub fn horizontal_spacing(self, spacing: u32) -> (grid: Grid<T>)
        ensures
            grid@ == (GridView { horizontal_spacing: spacing, ..self@ }),
    {
        proof {
            use_type_invariant(&self);
        }
        let mut grid = self;
        grid.horizontal_spacing = spacing;
        grid
    }

    /// Sets the vertical spacing between grid elements.
    pub fn vertical_spacing(self, spacing: u32) -> (grid: Grid<T>)
        ensures
            grid@ == (GridView { vertical_spacing: spacing, ..self@ }),
    {
        proof {
            use_type_invariant(&self);
        }
        let mut grid = self;
        grid.vertical_spacing = spacing;
        grid
    }

    /// Sets both horizontal and vertical spacing between grid elements.
    pub fn spacing(self, spacing: u32) -> (grid: Grid<T>)
        ensures
            grid@ == (GridView {
                horizontal_spacing: spacing,
                vertical_spacing: spacing,
                ..self@
            }),
    {
        self.horizontal_spacing(spacing).vertical_spacing(spacing)
    }

    /// Sets the padding of the grid.
    pub fn padding(self, padding: Padding) -> (grid: Grid<T>)
        ensures
            grid@ == (GridView { padding, ..self@ }),
    {
        proof {
            use_type_invariant(&self);
        }
        let mut grid = self;
        grid.padding = padding;
        grid
    }

    /// Sets the width of the grid.
    pub fn width(self, width: Length) -> (grid: Grid<T>)
        ensures
            grid@ == (GridView { width, ..self@ }),
    {
        proof {
            use_type_invariant(&self);
        }
        let mut grid = self;
        grid.width = width;
        grid
    }

    /// Sets the height of the grid.
    pub fn height(self, height: Length) -> (grid: Grid<T>)
        ensures
            grid@ == (GridView { height, ..self@ }),
    {
        proof {
            use_type_invariant(&self);
        }
        let mut grid = self;
        grid.height = height;
        grid
    }

    /// The number of columns, which is at least one.
    pub fn columns(&self) -> (columns: usize)
        ensures
            columns == self@.columns,
            columns >= 1,
    {
        proof {
            use_type_invariant(self);
        }
        self.columns
    }

    /// Lays the grid out in `available` room, for a source that gave `hint`
    /// as its length before `items` were drawn from it.
    ///
    /// The outer box is resolved from the width and height policies, the
    /// padding is taken off it, the items are counted (an exact hint is
    /// trusted), and the content box is divided into rows of equal cells,
    /// which are filled row by row.
    pub fn arrange_hinted(self, hint: LengthHint, available: Size) -> (layout: Layout<T>)
        ensures
            layout@ == spec_layout(self@, hint, available),
    {
        proof {
            use_type_invariant(&self);
        }
        let limits = Limits::new(Size::zero(), available);
        let size = limits.resolve(self.width, self.height, Size::zero());
        let content_width: i64 = size.width as i64 - self.padding.horizontal() as i64;
        let content_height: i64 = size.height as i64 - self.padding.vertical() as i64;
        let item_count = count_items(hint, &self.items);
        let arrangement = arrange_cells(
            self.columns,
            item_count,
            content_width,
            content_height,
            self.horizontal_spacing,
            self.vertical_spacing,
        );
        let row_count = match arrangement {
            Some(shape) => shape.rows,
            None => 0,
        };
        let rows = place_cells(row_count, self.columns, self.items);
        Layout {
            size,
            padding: self.padding,
            horizontal_spacing: self.horizontal_spacing,
            vertical_spacing: self.vertical_spacing,
            arrangement,
            rows,
        }
    }

    /// Lays the grid out in `available` room. The number of items is the
    /// number that the grid holds.
    pub fn arrange(self, available: Size) -> (layout: Layout<T>)
        ensures
            layout@ == spec_layout(
                self@,
                LengthHint { lower: self@.items.len() as usize, upper: Some(self@.items.len() as usize) },
                available,
            ),
    {
        let hint = LengthHint::exact(self.items.len());
        self.arrange_hinted(hint, available)
    }
}

/// Creates a grid with the given number of columns and items.
pub fn grid<T>(columns: usize, items: Vec<T>) -> (grid: Grid<T>)
    ensures
        grid@ == spec_new(columns, items@),
        grid@.columns >= 1,
{
    Grid::new(columns, items)
}

/// Makes a grid out of a collection of items.
pub trait GridExt<T>: Sized {
    /// The items of the collection, in order.
    spec fn spec_items(self) -> Seq<T>;

    /// Creates a grid with the given number of columns that holds the items
    /// of the collection.
    fn grid(self, columns: usize) -> (grid: Grid<T>)
        ensures
            grid@ == spec_new(columns, self.spec_items()),
    ;
}

impl<T> GridExt<T> for Vec<T> {
    open spec fn spec_items(self) -> Seq<T> {
        self@
    }

    fn grid(self, columns: usize) -> (grid: Grid<T>) {
        Grid::new(columns, self)
    }
}

} // verus!
