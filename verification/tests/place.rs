use iced_grid::place::{place_cells, Cell};

#[test]
fn cells_are_filled_row_by_row() {
    let grid = place_cells(2, 3, vec![1, 2, 3, 4, 5, 6]);
    assert_eq!(
        grid,
        vec![
            vec![Cell::Item(1), Cell::Item(2), Cell::Item(3)],
            vec![Cell::Item(4), Cell::Item(5), Cell::Item(6)],
        ]
    );
}

#[test]
fn last_row_is_padded_with_placeholders() {
    let grid = place_cells(3, 3, vec!["a", "b", "c", "d", "e", "f", "g"]);
    assert_eq!(grid.len(), 3);
    assert_eq!(grid[0], vec![Cell::Item("a"), Cell::Item("b"), Cell::Item("c")]);
    assert_eq!(grid[1], vec![Cell::Item("d"), Cell::Item("e"), Cell::Item("f")]);
    assert_eq!(grid[2], vec![Cell::Item("g"), Cell::Placeholder, Cell::Placeholder]);
}

#[test]
fn every_row_has_one_cell_per_column() {
    for columns in 1..6usize {
        for rows in 0..5usize {
            for items in 0..12u32 {
                let grid = place_cells(rows, columns, (0..items).collect());
                assert_eq!(grid.len(), rows);
                for (r, row) in grid.iter().enumerate() {
                    assert_eq!(row.len(), columns);
                    for (c, cell) in row.iter().enumerate() {
                        let index = r * columns + c;
                        if index < items as usize {
                            assert_eq!(*cell, Cell::Item(index as u32));
                        } else {
                            assert_eq!(*cell, Cell::Placeholder);
                        }
                    }
                }
            }
        }
    }
}

#[test]
fn no_rows_give_no_cells() {
    let grid = place_cells(0, 4, vec![1, 2, 3]);
    assert!(grid.is_empty());
}

#[test]
fn no_columns_give_empty_rows() {
    let grid = place_cells(2, 0, vec![1, 2, 3]);
    assert_eq!(grid, vec![Vec::<Cell<i32>>::new(), Vec::new()]);
}

#[test]
fn items_that_do_not_fit_are_left_out() {
    let grid = place_cells(1, 2, vec![10, 20, 30]);
    assert_eq!(grid, vec![vec![Cell::Item(10), Cell::Item(20)]]);
}

#[test]
fn rows_past_the_items_hold_placeholders_only() {
    let grid = place_cells(2, 2, vec![5]);
    assert_eq!(
        grid,
        vec![vec![Cell::Item(5), Cell::Placeholder], vec![Cell::Placeholder, Cell::Placeholder]]
    );
}

#[test]
fn items_need_not_be_copyable() {
    let grid = place_cells(1, 3, vec![String::from("x"), String::from("y")]);
    assert_eq!(
        grid,
        vec![vec![
            Cell::Item(String::from("x")),
            Cell::Item(String::from("y")),
            Cell::Placeholder
        ]]
    );
}
