use gridly::dense::VecGrid;
use gridly::grid::{GridBounds, LocationRangeError, RangeError};
use gridly::location::{Column, Component, Location, Row};
use gridly::vector::{Columns, Rows, Vector};
use gridly::view::Grid;
use gridly::view_mut::GridMut;

fn loc(r: isize, c: isize) -> Location {
    Location::new(Row(r), Column(c))
}

fn dims(r: isize, c: isize) -> Vector {
    Vector::new(Rows(r), Columns(c))
}

/// A grid of `rows` x `cols` whose cell at (r, c) holds `10 * (r - root_r) + (c - root_c)`.
fn numbered(root: Location, rows: isize, cols: isize) -> VecGrid<i32> {
    let mut cells = Vec::new();
    for r in 0..rows {
        for c in 0..cols {
            cells.push((10 * r + c) as i32);
        }
    }
    VecGrid::new(root, dims(rows, cols), cells).unwrap()
}

#[test]
fn scenario_three_by_four() {
    let g = numbered(Location::origin(), 3, 4);
    assert_eq!(g.check_location(loc(2, 3)), Ok(loc(2, 3)));
    assert_eq!(
        g.check_location(loc(3, 0)),
        Err(LocationRangeError::Row(RangeError::TooHigh(Row(3))))
    );
    assert_eq!(
        g.check_location(loc(0, 4)),
        Err(LocationRangeError::Column(RangeError::TooHigh(Column(4))))
    );
    assert_eq!(g.rows().iter().len(), 3);
    assert_eq!(g.row(Row(1)).unwrap().iter().len(), 4);
}

#[test]
fn check_location_matches_half_open_bounds() {
    let g = numbered(loc(-2, 5), 3, 2);
    for r in -5..5 {
        for c in 0..10 {
            let inside = (-2..1).contains(&r) && (5..7).contains(&c);
            assert_eq!(g.check_location(loc(r, c)).is_ok(), inside);
            assert_eq!(g.location_in_bounds(loc(r, c)), inside);
        }
    }
}

#[test]
fn check_location_reports_row_before_column() {
    let g = numbered(Location::origin(), 2, 2);
    assert_eq!(
        g.check_location(loc(-1, 9)),
        Err(LocationRangeError::Row(RangeError::TooLow(Row(0))))
    );
    assert_eq!(
        g.check_location(loc(1, -1)),
        Err(LocationRangeError::Column(RangeError::TooLow(Column(0))))
    );
}

#[test]
fn check_row_edges() {
    let g = numbered(loc(4, -3), 5, 2);
    assert_eq!(g.check_row(Row(3)), Err(RangeError::TooLow(Row(4))));
    assert_eq!(g.check_row(Row(9)), Err(RangeError::TooHigh(Row(9))));
    assert_eq!(g.check_row(Row(4)), Ok(Row(4)));
    assert_eq!(g.check_row(Row(8)), Ok(Row(8)));
    assert!(!g.row_in_bounds(Row(9)));
    assert_eq!(g.check_column(Column(-4)), Err(RangeError::TooLow(Column(-3))));
    assert_eq!(g.check_column(Column(-1)), Err(RangeError::TooHigh(Column(-1))));
    assert!(g.column_in_bounds(Column(-2)));
}

#[test]
fn empty_grid_rejects_everything() {
    let g = numbered(Location::origin(), 0, 0);
    assert_eq!(g.check_row(Row(0)), Err(RangeError::TooHigh(Row(0))));
    assert!(g.rows().iter().is_empty());
    assert!(g.columns().iter().is_empty());
}

#[test]
fn combine_round_trip() {
    let l = Row(7).combine(Column(-2));
    assert_eq!(l, loc(7, -2));
    assert_eq!(l.get_component::<Row>(), Row(7));
    assert_eq!(l.get_component::<Column>(), Column(-2));
    assert_eq!(Column(-2).combine(Row(7)), l);
    assert_eq!(Location::from((Row(1), Column(2))), loc(1, 2));
}

#[test]
fn rows_view_yields_indices_in_order() {
    let g = numbered(loc(2, 0), 4, 3);
    let rows: Vec<Row> = g.rows().iter().iter().map(|v| v.index()).collect();
    assert_eq!(rows, vec![Row(2), Row(3), Row(4), Row(5)]);
    let back: Vec<Row> = g.rows().iter().iter().rev().map(|v| v.index()).collect();
    assert_eq!(back, vec![Row(5), Row(4), Row(3), Row(2)]);
    let cols: Vec<Column> = g.columns().iter().iter().map(|v| v.index()).collect();
    assert_eq!(cols, vec![Column(0), Column(1), Column(2)]);
    let r = g.rows().range();
    assert_eq!((r.start, r.end), (Row(2), Row(6)));
}

#[test]
fn row_view_cells_and_locations() {
    let g = numbered(loc(0, 1), 3, 4);
    let row = g.row(Row(2)).unwrap();
    let cells: Vec<i32> = row.iter().into_iter().copied().collect();
    assert_eq!(cells, vec![20, 21, 22, 23]);
    let with_loc: Vec<(Location, i32)> =
        row.with_locations().into_iter().map(|(l, c)| (l, *c)).collect();
    assert_eq!(
        with_loc,
        vec![(loc(2, 1), 20), (loc(2, 2), 21), (loc(2, 3), 22), (loc(2, 4), 23)]
    );
    let with_col: Vec<(Column, i32)> =
        row.with_component().into_iter().map(|(c, v)| (c, *v)).collect();
    assert_eq!(with_col, vec![(Column(1), 20), (Column(2), 21), (Column(3), 22), (Column(4), 23)]);
    assert_eq!(row.range(), vec![loc(2, 1), loc(2, 2), loc(2, 3), loc(2, 4)]);
}

#[test]
fn column_view_cells() {
    let g = numbered(Location::origin(), 3, 4);
    let col = g.column(Column(1)).unwrap();
    let cells: Vec<i32> = col.iter().into_iter().copied().collect();
    assert_eq!(cells, vec![1, 11, 21]);
    assert_eq!(*col.get(Row(2)).unwrap(), 21);
    assert_eq!(*col.at(Row(0)), 1);
}

#[test]
fn single_view_get_out_of_range_is_an_error() {
    let g = numbered(Location::origin(), 3, 4);
    let row = g.row(Row(0)).unwrap();
    assert_eq!(row.get(Column(-1)), Err(RangeError::TooLow(Column(0))));
    assert_eq!(row.get(Column(4)), Err(RangeError::TooHigh(Column(4))));
    assert_eq!(*row.get(Column(3)).unwrap(), 3);
    assert_eq!(*row.at(Column(2)), 2);
}

#[test]
fn view_get_checks_index() {
    let g = numbered(Location::origin(), 3, 4);
    assert!(g.rows().get(Row(3)).is_err());
    assert_eq!(g.rows().get(Row(1)).unwrap().index(), Row(1));
    assert!(g.row(Row(-1)).is_err());
    assert!(matches!(g.column(Column(4)), Err(RangeError::TooHigh(Column(4)))));
}

#[test]
fn checked_get_reads_cells() {
    let g = numbered(loc(1, 1), 2, 2);
    assert_eq!(g.get(loc(2, 2)), Ok(&11));
    assert_eq!(g.get(loc(0, 1)), Err(LocationRangeError::Row(RangeError::TooLow(Row(1)))));
}

#[test]
fn get_mut_writes_one_cell() {
    let mut g = numbered(Location::origin(), 2, 3);
    *g.get_mut(loc(1, 2)).unwrap() = 99;
    assert_eq!(g.get(loc(1, 2)), Ok(&99));
    assert_eq!(g.get(loc(1, 1)), Ok(&11));
    assert!(g.get_mut(loc(2, 0)).is_err());
}

#[test]
fn dense_grid_rejects_bad_sizes() {
    assert!(VecGrid::new(Location::origin(), dims(2, 2), vec![1, 2, 3]).is_none());
    assert!(VecGrid::<u8>::new(Location::origin(), dims(-1, 0), vec![]).is_none());
    assert!(VecGrid::<u8>::new(loc(isize::MAX, 0), dims(1, 0), vec![]).is_none());
    assert!(VecGrid::new(Location::origin(), dims(1, 2), vec![1, 2]).is_some());
}

#[test]
fn grid_root_and_dimensions() {
    let g = numbered(loc(-1, 3), 2, 5);
    assert_eq!(g.root(), loc(-1, 3));
    assert_eq!(g.dimensions(), dims(2, 5));
    assert_eq!(g.num_rows(), Rows(2));
    assert_eq!(g.num_columns(), Columns(5));
}

fn count_cells<G: Grid>(g: G) -> usize {
    g.rows().iter().iter().map(|r| r.iter().len()).sum()
}

#[test]
fn references_behave_like_the_grid() {
    let mut g = numbered(loc(1, 1), 2, 3);
    assert_eq!(count_cells(&g), 6);
    assert_eq!(count_cells(&mut g), 6);
    let r = &g;
    assert_eq!(GridBounds::root(&r), loc(1, 1));
    let mut m = &mut g;
    *GridMut::get_mut(&mut m, loc(2, 3)).unwrap() = -5;
    assert_eq!(g.get(loc(2, 3)), Ok(&-5));
}

#[test]
fn conversions_into_coordinates() {
    assert_eq!(Location::from((3, -4)), loc(3, -4));
    assert_eq!(Row::from(6), Row(6));
    assert_eq!(Column::from(-6), Column(-6));
}
