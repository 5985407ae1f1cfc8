use vstd::prelude::*;

use crate::location::{Column, Coordinate, Location, Row};
use crate::vector::{Columns, Rows, Vector};

verus! {

/// Error indicating that a row or column was out of bounds.
///
/// The bounds are half open: the value in `TooLow` is the inclusive lower
/// bound, the value in `TooHigh` the exclusive upper bound (a value equal to
/// it is too high).
#[derive(Debug, Clone, Copy, PartialEq, Eq)]
pub enum RangeError<T> {
    /// The value was below the minimum, which the error carries.
    TooLow(T),
    /// The value was at or above the exclusive maximum, which the error carries.
    TooHigh(T),
}

/// A bounds error on a location, tagged with the axis that failed.
#[derive(Debug, Clone, Copy, PartialEq, Eq)]
pub enum LocationRangeError {
    Row(RangeError<Row>),
    Column(RangeError<Column>),
}

/// The half-open range `[start, end)` of coordinates along one axis.
#[derive(Debug, Clone, Copy, PartialEq, Eq)]
pub struct Range<T> {
    pub start: T,
    pub end: T,
}

/// Whether `v` lies in `[root, root + extent)`.
pub open spec fn in_range<T: Coordinate>(root: T, extent: isize, v: T) -> bool {
    root.spec_value() <= v.spec_value() < root.spec_value() + extent
}

/// The outcome of checking `v` against `[root, root + extent)`.
pub open spec fn checked<T: Coordinate>(root: T, extent: isize, v: T) -> Result<T, RangeError<T>> {
    if v.spec_value() < root.spec_value() {
        Err(RangeError::TooLow(root))
    } else if v.spec_value() >= root.spec_value() + extent {
        Err(RangeError::TooHigh(T::spec_from_value((root.spec_value() + extent) as isize)))
    } else {
        Ok(v)
    }
}

/// Whether `loc` lies in the grid rooted at `root` of size `dims`.
pub open spec fn location_in(root: Location, dims: Vector, loc: Location) -> bool {
    &&& in_range(root.row, dims.rows.0, loc.row)
    &&& in_range(root.column, dims.columns.0, loc.column)
}

/// The outcome of checking `loc`: the row first, then the column.
pub open spec fn checked_location(root: Location, dims: Vector, loc: Location) -> Result<
    Location,
    LocationRangeError,
> {
    match checked(root.row, dims.rows.0, loc.row) {
        Err(e) => Err(LocationRangeError::Row(e)),
        Ok(_) => match checked(root.column, dims.columns.0, loc.column) {
            Err(e) => Err(LocationRangeError::Column(e)),
            Ok(_) => Ok(loc),
        },
    }
}

/// The extents are non-negative and the end of each axis is an `isize`.
pub open spec fn bounds_fit(root: Location, dims: Vector) -> bool {
    &&& 0 <= dims.rows.0
    &&& 0 <= dims.columns.0
    &&& root.row.0 + dims.rows.0 <= isize::MAX
    &&& root.column.0 + dims.columns.0 <= isize::MAX
}

/// Sizes and bounds checking of a grid.
///
/// The root (top left location) and the dimensions are constant for any
/// given grid.
pub trait GridBounds {
    /// The top left location of the grid.
    spec fn spec_root(&self) -> Location;

    /// The height and width of the grid.
    spec fn spec_dimensions(&self) -> Vector;

    /// The index of the topmost row.
    fn root_row(&self) -> (r: Row)
        ensures
            r == self.spec_root().row,
    ;

    /// The index of the leftmost column.
    fn root_column(&self) -> (r: Column)
        ensures
            r == self.spec_root().column,
    ;

    /// The height of the grid.
    fn num_rows(&self) -> (r: Rows)
        ensures
            r == self.spec_dimensions().rows,
            bounds_fit(self.spec_root(), self.spec_dimensions()),
    ;

    /// The width of the grid.
    fn num_columns(&self) -> (r: Columns)
        ensures
            r == self.spec_dimensions().columns,
            bounds_fit(self.spec_root(), self.spec_dimensions()),
    ;

    /// The top left location of the grid.
    fn root(&self) -> (r: Location)
        ensures
            r == self.spec_root(),
    {
        Location::new(self.root_row(), self.root_column())
    }

    /// The size of the grid.
    fn dimensions(&self) -> (r: Vector)
        ensures
            r == self.spec_dimensions(),
            bounds_fit(self.spec_root(), self.spec_dimensions()),
    {
        Vector::new(self.num_rows(), self.num_columns())
    }

    /// Check that a row is inside `[root_row, root_row + num_rows)`.
    fn check_row(&self, row: Row) -> (r: Result<Row, RangeError<Row>>)
        ensures
            r == checked(self.spec_root().row, self.spec_dimensions().rows.0, row),
    {
        let min_row = self.root_row();
        if row.0 < min_row.0 {
            return Err(RangeError::TooLow(min_row));
        }
        let max_row = min_row.add(self.num_rows());
        if row.0 >= max_row.0 {
            return Err(RangeError::TooHigh(max_row));
        }
        Ok(row)
    }

    /// Whether a row is inside `[root_row, root_row + num_rows)`.
    fn row_in_bounds(&self, row: Row) -> (r: bool)
        ensures
            r == in_range(self.spec_root().row, self.spec_dimensions().rows.0, row),
    {
        self.check_row(row).is_ok()
    }

    /// Check that a column is inside `[root_column, root_column + num_columns)`.
    fn check_column(&self, column: Column) -> (r: Result<Column, RangeError<Column>>)
        ensures
            r == checked(self.spec_root().column, self.spec_dimensions().columns.0, column),
    {
        let min_column = self.root_column();
        if column.0 < min_column.0 {
            return Err(RangeError::TooLow(min_column));
        }
        let max_column = min_column.add(self.num_columns());
        if column.0 >= max_column.0 {
            return Err(RangeError::TooHigh(max_column));
        }
        Ok(column)
    }

    /// Whether a column is inside `[root_column, root_column + num_columns)`.
    fn column_in_bounds(&self, column: Column) -> (r: bool)
        ensures
            r == in_range(self.spec_root().column, self.spec_dimensions().columns.0, column),
    {
        self.check_column(column).is_ok()
    }

    /// Check a row or a column, whichever `T` is.
    fn check_component<T: Coordinate>(&self, v: T) -> (r: Result<T, RangeError<T>>)
        ensures
            r == checked(
                T::spec_of_location(self.spec_root()),
                T::spec_extent(self.spec_dimensions()),
                v,
            ),
    {
        let root = self.root();
        let dims = self.dimensions();
        let min = T::from_location(&root);
        let extent = T::extent(&dims);
        proof {
            T::lemma_axis(root, dims);
        }
        if v.value() < min.value() {
            return Err(RangeError::TooLow(min));
        }
        let max = T::from_value(min.value() + extent);
        proof {
            T::lemma_value((min.spec_value() + extent) as isize, v);
        }
        if v.value() >= max.value() {
            return Err(RangeError::TooHigh(max));
        }
        Ok(v)
    }

    /// The range of valid rows or columns, whichever `T` is.
    fn range<T: Coordinate>(&self) -> (r: Range<T>)
        ensures
            r.start == T::spec_of_location(self.spec_root()),
            r.end.spec_value() == r.start.spec_value() + T::spec_extent(self.spec_dimensions()),
            T::spec_extent(self.spec_dimensions()) >= 0,
    {
        let root = self.root();
        let dims = self.dimensions();
        let start = T::from_location(&root);
        proof {
            T::lemma_axis(root, dims);
        }
        let end = T::from_value(start.value() + T::extent(&dims));
        proof {
            T::lemma_value((start.spec_value() + T::spec_extent(dims)) as isize, start);
        }
        Range { start, end }
    }

    /// Check that a location is inside the grid: its row first, then its
    /// column.
    fn check_location(&self, loc: Location) -> (r: Result<Location, LocationRangeError>)
        ensures
            r == checked_location(self.spec_root(), self.spec_dimensions(), loc),
    {
        match self.check_row(loc.row) {
            Err(e) => return Err(LocationRangeError::Row(e)),
            Ok(_) => {},
        }
        match self.check_column(loc.column) {
            Err(e) => return Err(LocationRangeError::Column(e)),
            Ok(_) => {},
        }
        Ok(loc)
    }

    /// Whether a location is inside the grid.
    fn location_in_bounds(&self, loc: Location) -> (r: bool)
        ensures
            r == location_in(self.spec_root(), self.spec_dimensions(), loc),
    {
        self.check_location(loc).is_ok()
    }
}

/// A location check succeeds exactly on the locations whose row and column
/// both lie in the grid's half-open ranges.
pub proof fn lemma_check_location_ok_iff<G: GridBounds>(grid: &G, loc: Location)
    ensures
        checked_location(grid.spec_root(), grid.spec_dimensions(), loc) is Ok <==> (
        grid.spec_root().row.0 <= loc.row.0 < grid.spec_root().row.0
            + grid.spec_dimensions().rows.0 && grid.spec_root().column.0 <= loc.column.0
            < grid.spec_root().column.0 + grid.spec_dimensions().columns.0),
        checked_location(grid.spec_root(), grid.spec_dimensions(), loc) is Ok ==> checked_location(
            grid.spec_root(),
            grid.spec_dimensions(),
            loc,
        ) == Ok::<Location, LocationRangeError>(loc),
{
}

/// The row just above the grid is too low, reporting the root row; the row
/// just past the last is too high, reporting itself.
pub proof fn lemma_check_row_edges<G: GridBounds>(grid: &G)
    requires
        bounds_fit(grid.spec_root(), grid.spec_dimensions()),
        grid.spec_root().row.0 > isize::MIN,
    ensures
        checked(
            grid.spec_root().row,
            grid.spec_dimensions().rows.0,
            Row((grid.spec_root().row.0 - 1) as isize),
        ) == Err::<Row, RangeError<Row>>(RangeError::TooLow(grid.spec_root().row)),
        checked(
            grid.spec_root().row,
            grid.spec_dimensions().rows.0,
            Row((grid.spec_root().row.0 + grid.spec_dimensions().rows.0) as isize),
        ) == Err::<Row, RangeError<Row>>(
            RangeError::TooHigh(Row((grid.spec_root().row.0 + grid.spec_dimensions().rows.0) as isize)),
        ),
{
}

/// The column counterpart of [`lemma_check_row_edges`].
pub proof fn lemma_check_column_edges<G: GridBounds>(grid: &G)
    requires
        bounds_fit(grid.spec_root(), grid.spec_dimensions()),
        grid.spec_root().column.0 > isize::MIN,
    ensures
        checked(
            grid.spec_root().column,
            grid.spec_dimensions().columns.0,
            Column((grid.spec_root().column.0 - 1) as isize),
        ) == Err::<Column, RangeError<Column>>(RangeError::TooLow(grid.spec_root().column)),
        checked(
            grid.spec_root().column,
            grid.spec_dimensions().columns.0,
            Column((grid.spec_root().column.0 + grid.spec_dimensions().columns.0) as isize),
        ) == Err::<Column, RangeError<Column>>(
            RangeError::TooHigh(
                Column((grid.spec_root().column.0 + grid.spec_dimensions().columns.0) as isize),
            ),
        ),
{
}

} // verus!
