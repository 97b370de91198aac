use iced_grid::arrange::{arrange_cells, cell_extent, row_count, Arrangement, Extent};

fn value(extent: Extent) -> f64 {
    extent.numerator as f64 / extent.denominator as f64
}

#[test]
fn row_count_rounds_up() {
    assert_eq!(row_count(0, 3), 0);
    assert_eq!(row_count(1, 3), 1);
    assert_eq!(row_count(3, 3), 1);
    assert_eq!(row_count(4, 3), 2);
    assert_eq!(row_count(7, 3), 3);
    assert_eq!(row_count(12, 4), 3);
    assert_eq!(row_count(5, 1), 5);
    assert_eq!(row_count(2, 10), 1);
}

#[test]
fn row_count_is_zero_only_without_items() {
    for columns in 1..8usize {
        assert_eq!(row_count(0, columns), 0);
        for items in 1..40usize {
            let rows = row_count(items, columns);
            assert!(rows >= 1);
            assert!(rows * columns >= items);
            assert!((rows - 1) * columns < items);
        }
    }
}

#[test]
fn row_count_at_the_largest_count() {
    assert_eq!(row_count(usize::MAX, 1), usize::MAX);
    assert_eq!(row_count(usize::MAX, usize::MAX), 1);
    assert_eq!(row_count(usize::MAX, 2), usize::MAX / 2 + 1);
}

#[test]
fn cell_extent_takes_the_gaps_out() {
    let extent = cell_extent(300, 10, 3);
    assert_eq!(extent, Extent { numerator: 280, denominator: 3 });
    assert!((value(extent) - 93.333333).abs() < 1e-4);
    let extent = cell_extent(200, 10, 3);
    assert_eq!(extent, Extent { numerator: 180, denominator: 3 });
    assert_eq!(value(extent), 60.0);
}

#[test]
fn cell_extent_of_one_track_is_the_content() {
    assert_eq!(cell_extent(460, 25, 1), Extent { numerator: 460, denominator: 1 });
}

#[test]
fn cell_extent_goes_negative_when_gaps_exceed_the_box() {
    let extent = cell_extent(10, 20, 3);
    assert_eq!(extent, Extent { numerator: -30, denominator: 3 });
    assert_eq!(value(extent), -10.0);
    let extent = cell_extent(-40, 0, 4);
    assert_eq!(extent, Extent { numerator: -40, denominator: 4 });
}

#[test]
fn cell_extent_does_not_overflow() {
    let extent = cell_extent(i64::MIN, u32::MAX, usize::MAX);
    let gaps = (usize::MAX - 1) as i128;
    assert_eq!(extent.numerator, i64::MIN as i128 - u32::MAX as i128 * gaps);
    assert_eq!(extent.denominator, usize::MAX);
}

#[test]
fn cells_and_gaps_add_up_to_the_content() {
    for tracks in 1..9usize {
        for spacing in [0u32, 1, 7, 10] {
            for content in [-5i64, 0, 1, 99, 300, 1024] {
                let extent = cell_extent(content, spacing, tracks);
                let gaps = (tracks as i128 - 1) * spacing as i128;
                assert_eq!(extent.denominator, tracks);
                assert_eq!(extent.numerator + gaps, content as i128);
                let total = tracks as f64 * value(extent) + gaps as f64;
                assert!((total - content as f64).abs() < 1e-9);
            }
        }
    }
}

#[test]
fn seven_items_in_three_columns() {
    let arrangement = arrange_cells(3, 7, 300, 200, 10, 10);
    assert_eq!(
        arrangement,
        Some(Arrangement {
            rows: 3,
            columns: 3,
            cell_width: Extent { numerator: 280, denominator: 3 },
            cell_height: Extent { numerator: 180, denominator: 3 },
        })
    );
    let shape = arrangement.unwrap();
    assert!((value(shape.cell_width) - 93.33).abs() < 0.01);
    assert_eq!(value(shape.cell_height), 60.0);
}

#[test]
fn no_items_no_arrangement() {
    assert_eq!(arrange_cells(3, 0, 300, 200, 10, 10), None);
    assert_eq!(arrange_cells(1, 0, 0, 0, 0, 0), None);
}

#[test]
fn twelve_items_in_four_columns() {
    let shape = arrange_cells(4, 12, 460, 260, 0, 0).unwrap();
    assert_eq!(shape.rows, 3);
    assert_eq!(shape.columns, 4);
    assert_eq!(value(shape.cell_width), 115.0);
    assert!((value(shape.cell_height) - 86.67).abs() < 0.01);
}

#[test]
fn vertical_gaps_follow_the_row_count() {
    let shape = arrange_cells(2, 5, 100, 100, 4, 6).unwrap();
    assert_eq!(shape.rows, 3);
    assert_eq!(shape.cell_width, Extent { numerator: 96, denominator: 2 });
    assert_eq!(shape.cell_height, Extent { numerator: 88, denominator: 3 });
}
