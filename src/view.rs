use vstd::prelude::*;

use core::marker::PhantomData;
// The `View` struct below shadows vstd's `View` trait; keep the trait in scope
// for the `@` notation.
use vstd::view::View as _;

use crate::grid::{bounds_fit, checked, checked_location, in_range, location_in, GridBounds, LocationRangeError, Range, RangeError};
use crate::location::{Column, Component, Coordinate, Location, Row};
use crate::vector::{Columns, Rows, Vector};

verus! {

/// Whether `v` is a valid row or column (whichever `T` is) of `grid`.
pub open spec fn valid_index<G: GridBounds, T: Coordinate>(grid: &G, v: T) -> bool {
    in_range(T::spec_of_location(grid.spec_root()), T::spec_extent(grid.spec_dimensions()), v)
}

/// The outcome of checking `v` as a row or column (whichever `T` is) of `grid`.
pub open spec fn checked_index<G: GridBounds, T: Coordinate>(grid: &G, v: T) -> Result<T, RangeError<T>> {
    checked(T::spec_of_location(grid.spec_root()), T::spec_extent(grid.spec_dimensions()), v)
}

/// The number of rows or columns (whichever `T` is) of `grid`.
pub open spec fn axis_len<G: GridBounds, T: Coordinate>(grid: &G) -> int {
    T::spec_extent(grid.spec_dimensions()) as int
}

/// The `i`-th row or column (whichever `T` is) of `grid`, counted from its root.
pub open spec fn nth_index<G: GridBounds, T: Coordinate>(grid: &G, i: int) -> T {
    T::spec_from_value((T::spec_of_location(grid.spec_root()).spec_value() + i) as isize)
}

/// A location lies in the grid exactly when both of its components do.
proof fn lemma_combined_in_bounds<G: GridBounds, T: Component>(grid: &G, a: T, b: T::Converse)
    ensures
        location_in(grid.spec_root(), grid.spec_dimensions(), a.spec_combine(b)) <==> (
        valid_index(grid, a) && valid_index(grid, b)),
{
    let loc = a.spec_combine(b);
    T::lemma_combine(a, b);
    T::lemma_axis(loc, grid.spec_dimensions());
    T::lemma_axis(grid.spec_root(), grid.spec_dimensions());
    T::Converse::lemma_axis(loc, grid.spec_dimensions());
    T::Converse::lemma_axis(grid.spec_root(), grid.spec_dimensions());
}

/// The `i`-th index from the root has the value root + `i`.
proof fn lemma_nth_index<G: GridBounds, T: Coordinate>(grid: &G, i: int)
    requires
        T::spec_of_location(grid.spec_root()).spec_value() + i <= isize::MAX,
        0 <= i,
    ensures
        nth_index::<G, T>(grid, i).spec_value() == T::spec_of_location(grid.spec_root()).spec_value()
            + i,
{
    let v = (T::spec_of_location(grid.spec_root()).spec_value() + i) as isize;
    T::lemma_value(v, T::spec_of_location(grid.spec_root()));
}

/// The indices that a view walks through rise strictly, one step at a time:
/// the `i`-th is the root plus `i`, so read backwards they descend.
pub proof fn lemma_nth_index_ascending<G: GridBounds, T: Coordinate>(grid: &G, i: int, j: int)
    requires
        bounds_fit(grid.spec_root(), grid.spec_dimensions()),
        0 <= i < j < axis_len::<G, T>(grid),
    ensures
        nth_index::<G, T>(grid, i).spec_value() == T::spec_of_location(grid.spec_root()).spec_value()
            + i,
        nth_index::<G, T>(grid, j).spec_value() == T::spec_of_location(grid.spec_root()).spec_value()
            + j,
        nth_index::<G, T>(grid, i).spec_value() < nth_index::<G, T>(grid, j).spec_value(),
        valid_index(grid, nth_index::<G, T>(grid, i)),
        valid_index(grid, nth_index::<G, T>(grid, j)),
{
    T::lemma_axis(grid.spec_root(), grid.spec_dimensions());
    lemma_nth_index::<G, T>(grid, i);
    lemma_nth_index::<G, T>(grid, j);
}

/// The `i`-th location of a view over row `r` is `(r, root_column + i)`.
pub proof fn lemma_row_view_locations<G: BaseGrid>(view: SingleView<'_, G, Row>, i: int)
    requires
        bounds_fit(view.grid().spec_root(), view.grid().spec_dimensions()),
        0 <= i < view.grid().spec_dimensions().columns.0,
    ensures
        view.nth_location(i) == (Location {
            row: view.index_spec(),
            column: Column((view.grid().spec_root().column.0 + i) as isize),
        }),
{
}

/// The `i`-th location of a view over column `c` is `(root_row + i, c)`.
pub proof fn lemma_column_view_locations<G: BaseGrid>(view: SingleView<'_, G, Column>, i: int)
    requires
        bounds_fit(view.grid().spec_root(), view.grid().spec_dimensions()),
        0 <= i < view.grid().spec_dimensions().rows.0,
    ensures
        view.nth_location(i) == (Location {
            row: Row((view.grid().spec_root().row.0 + i) as isize),
            column: view.index_spec(),
        }),
{
}

/// A grid whose cells can be read by location.
pub trait BaseGrid: GridBounds + Sized {
    type Item;

    /// The content of the cell at `loc`.
    spec fn spec_cell(&self, loc: Location) -> Self::Item;

    /// Get a reference to a cell, without bounds checking; the caller has
    /// already established that `loc` is inside the grid.
    fn get_unchecked(&self, loc: &Location) -> (r: &Self::Item)
        requires
            location_in(self.spec_root(), self.spec_dimensions(), *loc),
        ensures
            *r == self.spec_cell(*loc),
    ;
}

/// A shared reference to a grid is a grid with the same cells.
impl<'g, G: BaseGrid> GridBounds for &'g G {
    open spec fn spec_root(&self) -> Location {
        (**self).spec_root()
    }

    open spec fn spec_dimensions(&self) -> Vector {
        (**self).spec_dimensions()
    }

    fn root_row(&self) -> Row {
        (**self).root_row()
    }

    fn root_column(&self) -> Column {
        (**self).root_column()
    }

    fn num_rows(&self) -> Rows {
        (**self).num_rows()
    }

    fn num_columns(&self) -> Columns {
        (**self).num_columns()
    }
}

impl<'g, G: BaseGrid> BaseGrid for &'g G {
    type Item = G::Item;

    open spec fn spec_cell(&self, loc: Location) -> G::Item {
        (**self).spec_cell(loc)
    }

    fn get_unchecked(&self, loc: &Location) -> &G::Item {
        (**self).get_unchecked(loc)
    }
}

/// An exclusive reference to a grid is a grid with the same cells.
impl<'g, G: BaseGrid> GridBounds for &'g mut G {
    open spec fn spec_root(&self) -> Location {
        (**self).spec_root()
    }

    open spec fn spec_dimensions(&self) -> Vector {
        (**self).spec_dimensions()
    }

    fn root_row(&self) -> Row {
        (**self).root_row()
    }

    fn root_column(&self) -> Column {
        (**self).root_column()
    }

    fn num_rows(&self) -> Rows {
        (**self).num_rows()
    }

    fn num_columns(&self) -> Columns {
        (**self).num_columns()
    }
}

impl<'g, G: BaseGrid> BaseGrid for &'g mut G {
    type Item = G::Item;

    open spec fn spec_cell(&self, loc: Location) -> G::Item {
        (**self).spec_cell(loc)
    }

    fn get_unchecked(&self, loc: &Location) -> &G::Item {
        (**self).get_unchecked(loc)
    }
}

/// Checked access and row and column views, for every [`BaseGrid`].
pub trait Grid: BaseGrid {
    /// Get a reference to a cell. Returns the bounds error of the location
    /// if it is outside the grid.
    fn get(&self, location: Location) -> (r: Result<&Self::Item, LocationRangeError>)
        ensures
            r is Ok <==> location_in(self.spec_root(), self.spec_dimensions(), location),
            r matches Ok(c) ==> *c == self.spec_cell(location),
            r matches Err(e) ==> checked_location(self.spec_root(), self.spec_dimensions(), location)
                == Err::<Location, LocationRangeError>(e),
    {
        match self.check_location(location) {
            Ok(loc) => Ok(self.get_unchecked(&loc)),
            Err(e) => Err(e),
        }
    }

    /// A view of all rows or all columns of the grid.
    fn axis_view<T: Component>(&self) -> (r: View<'_, Self, T>)
        ensures
            r.grid() == *self,
    {
        View::new(self)
    }

    /// A view of all rows of the grid.
    fn rows(&self) -> (r: View<'_, Self, Row>)
        ensures
            r.grid() == *self,
    {
        self.axis_view()
    }

    /// A view of all columns of the grid.
    fn columns(&self) -> (r: View<'_, Self, Column>)
        ensures
            r.grid() == *self,
    {
        self.axis_view()
    }

    /// A view of one row or column, whose index is already known to be valid.
    fn single_view_unchecked<T: Component>(&self, index: T) -> (r: SingleView<'_, Self, T>)
        requires
            valid_index(self, index),
        ensures
            r.grid() == *self,
            r.index_spec() == index,
    {
        SingleView::new_unchecked(self, index)
    }

    /// A view of one row, whose index is already known to be valid.
    fn row_unchecked(&self, row: Row) -> (r: SingleView<'_, Self, Row>)
        requires
            valid_index(self, row),
        ensures
            r.grid() == *self,
            r.index_spec() == row,
    {
        self.single_view_unchecked(row)
    }

    /// A view of one column, whose index is already known to be valid.
    fn column_unchecked(&self, column: Column) -> (r: SingleView<'_, Self, Column>)
        requires
            valid_index(self, column),
        ensures
            r.grid() == *self,
            r.index_spec() == column,
    {
        self.single_view_unchecked(column)
    }

    /// A view of one row or column, or the range error of its index.
    fn single_view<T: Component>(&self, index: T) -> (r: Result<SingleView<'_, Self, T>, RangeError<T>>)
        ensures
            r is Ok <==> valid_index(self, index),
            r matches Ok(v) ==> v.grid() == *self && v.index_spec() == index,
            r matches Err(e) ==> checked_index(self, index) == Err::<T, RangeError<T>>(e),
    {
        SingleView::new(self, index)
    }

    /// A view of one row, or the range error of its index.
    fn row(&self, row: Row) -> (r: Result<SingleView<'_, Self, Row>, RangeError<Row>>)
        ensures
            r is Ok <==> valid_index(self, row),
            r matches Ok(v) ==> v.grid() == *self && v.index_spec() == row,
            r matches Err(e) ==> checked_index(self, row) == Err::<Row, RangeError<Row>>(e),
    {
        self.single_view(row)
    }

    /// A view of one column, or the range error of its index.
    fn column(&self, column: Column) -> (r: Result<SingleView<'_, Self, Column>, RangeError<Column>>)
        ensures
            r is Ok <==> valid_index(self, column),
            r matches Ok(v) ==> v.grid() == *self && v.index_spec() == column,
            r matches Err(e) ==> checked_index(self, column) == Err::<Column, RangeError<Column>>(e),
    {
        self.single_view(column)
    }
}

impl<G: BaseGrid> Grid for G {
}

/// A view of all rows (`T` = [`Row`]) or all columns (`T` = [`Column`]) of
/// a grid.
pub struct View<'a, G: BaseGrid, T: Component> {
    grid: &'a G,
    index: PhantomData<T>,
}

impl<'a, G: BaseGrid, T: Component> View<'a, G, T> {
    /// The grid this view reads.
    pub closed spec fn grid(&self) -> G {
        *self.grid
    }

    fn new(grid: &'a G) -> (r: Self)
        ensures
            r.grid() == *grid,
    {
        View { grid, index: PhantomData }
    }

    /// The view of one row or column, whose index is already known to be valid.
    pub fn get_unchecked(&self, index: T) -> (r: SingleView<'a, G, T>)
        requires
            valid_index(&self.grid(), index),
        ensures
            r.grid() == self.grid(),
            r.index_spec() == index,
    {
        SingleView::new_unchecked(self.grid, index)
    }

    /// The view of one row or column, or the range error of its index.
    pub fn get(&self, index: T) -> (r: Result<SingleView<'a, G, T>, RangeError<T>>)
        ensures
            r is Ok <==> valid_index(&self.grid(), index),
            r matches Ok(v) ==> v.grid() == self.grid() && v.index_spec() == index,
            r matches Err(e) ==> checked_index(&self.grid(), index) == Err::<T, RangeError<T>>(e),
    {
        SingleView::new(self.grid, index)
    }

    /// The valid indices along this view's axis.
    pub fn range(&self) -> (r: Range<T>)
        ensures
            r.start == T::spec_of_location(self.grid().spec_root()),
            r.end.spec_value() == r.start.spec_value() + axis_len::<G, T>(&self.grid()),
    {
        self.grid.range()
    }

    /// The views of every row or column, in ascending order of index.
    pub fn iter(&self) -> (r: Vec<SingleView<'a, G, T>>)
        ensures
            r@.len() == axis_len::<G, T>(&self.grid()),
            forall|i: int|
                0 <= i < r@.len() ==> (#[trigger] r@[i]).grid() == self.grid() && r@[i].index_spec()
                    == nth_index::<G, T>(&self.grid(), i),
    {
        let range = self.grid.range::<T>();
        let n = (range.end.value() - range.start.value()) as usize;
        let mut out: Vec<SingleView<'a, G, T>> = Vec::new();
        let mut i: usize = 0;
        while i < n
            invariant
                i <= n,
                n == axis_len::<G, T>(&self.grid()),
                range.start == T::spec_of_location(self.grid().spec_root()),
                range.start.spec_value() + n <= isize::MAX,
                out@.len() == i,
                forall|j: int|
                    0 <= j < i ==> (#[trigger] out@[j]).grid() == self.grid() && out@[j].index_spec()
                        == nth_index::<G, T>(&self.grid(), j),
            decreases n - i,
        {
            let index = T::from_value(range.start.value() + i as isize);
            proof {
                lemma_nth_index::<G, T>(&self.grid(), i as int);
            }
            out.push(SingleView::new_unchecked(self.grid, index));
            i = i + 1;
        }
        out
    }
}

/// A view of one row (`T` = [`Row`]) or one column (`T` = [`Column`]) of a
/// grid. Its index has been checked against the grid.
pub struct SingleView<'a, G: BaseGrid, T: Component> {
    grid: &'a G,
    index: T,
}

impl<'a, G: BaseGrid, T: Component> SingleView<'a, G, T> {
    #[verifier::type_invariant]
    spec fn index_valid(&self) -> bool {
        valid_index(self.grid, self.index)
    }

    /// The grid this view reads.
    pub closed spec fn grid(&self) -> G {
        *self.grid
    }

    /// The row or column this view covers.
    pub closed spec fn index_spec(&self) -> T {
        self.index
    }

    /// The location of the `i`-th cell of this view.
    pub open spec fn nth_location(&self, i: int) -> Location {
        self.index_spec().spec_combine(nth_index::<G, T::Converse>(&self.grid(), i))
    }

    fn new_unchecked(grid: &'a G, index: T) -> (r: Self)
        requires
            valid_index(grid, index),
        ensures
            r.grid() == *grid,
            r.index_spec() == index,
    {
        SingleView { grid, index }
    }

    fn new(grid: &'a G, index: T) -> (r: Result<Self, RangeError<T>>)
        ensures
            r is Ok <==> valid_index(grid, index),
            r matches Ok(v) ==> v.grid() == *grid && v.index_spec() == index,
            r matches Err(e) ==> checked_index(grid, index) == Err::<T, RangeError<T>>(e),
    {
        match grid.check_component(index) {
            Ok(i) => Ok(Self::new_unchecked(grid, i)),
            Err(e) => Err(e),
        }
    }

    /// The row or column this view covers.
    pub fn index(&self) -> (r: T)
        ensures
            r == self.index_spec(),
    {
        self.index
    }

    /// The cell at this view's index crossed with `cross`, which is already
    /// known to be valid.
    pub fn get_unchecked(&self, cross: T::Converse) -> (r: &'a G::Item)
        requires
            valid_index(&self.grid(), cross),
        ensures
            *r == self.grid().spec_cell(self.index_spec().spec_combine(cross)),
    {
        proof {
            use_type_invariant(self);
            lemma_combined_in_bounds(self.grid, self.index, cross);
        }
        self.grid.get_unchecked(&self.index.combine(cross))
    }

    /// The cell at this view's index crossed with `cross`, or the range
    /// error of `cross`.
    pub fn get(&self, cross: T::Converse) -> (r: Result<&'a G::Item, RangeError<T::Converse>>)
        ensures
            r is Ok <==> valid_index(&self.grid(), cross),
            r matches Ok(c) ==> *c == self.grid().spec_cell(self.index_spec().spec_combine(cross)),
            r matches Err(e) ==> checked_index(&self.grid(), cross) == Err::<
                T::Converse,
                RangeError<T::Converse>,
            >(e),
    {
        match self.grid.check_component(cross) {
            Ok(c) => Ok(self.get_unchecked(c)),
            Err(e) => Err(e),
        }
    }

    /// The cell at this view's index crossed with `cross`; `cross` must be
    /// valid (unlike [`SingleView::get`], there is no error to return).
    pub fn at(&self, cross: T::Converse) -> (r: &'a G::Item)
        requires
            valid_index(&self.grid(), cross),
        ensures
            *r == self.grid().spec_cell(self.index_spec().spec_combine(cross)),
    {
        self.get_unchecked(cross)
    }

    /// The `i`-th valid value of the converse axis.
    fn cross_at(&self, i: usize, range: &Range<T::Converse>) -> (r: T::Converse)
        requires
            i < axis_len::<G, T::Converse>(&self.grid()),
            range.start == T::Converse::spec_of_location(self.grid().spec_root()),
            range.end.spec_value() == range.start.spec_value() + axis_len::<G, T::Converse>(
                &self.grid(),
            ),
        ensures
            r == nth_index::<G, T::Converse>(&self.grid(), i as int),
            valid_index(&self.grid(), r),
    {
        proof {
            lemma_nth_index::<G, T::Converse>(&self.grid(), i as int);
        }
        T::Converse::from_value(range.start.value() + i as isize)
    }

    /// The locations of this view's cells, in ascending order.
    pub fn range(&self) -> (r: Vec<Location>)
        ensures
            r@.len() == axis_len::<G, T::Converse>(&self.grid()),
            forall|i: int| 0 <= i < r@.len() ==> #[trigger] r@[i] == self.nth_location(i),
    {
        let range = self.grid.range::<T::Converse>();
        let n = (range.end.value() - range.start.value()) as usize;
        let mut out: Vec<Location> = Vec::new();
        let mut i: usize = 0;
        while i < n
            invariant
                i <= n,
                n == axis_len::<G, T::Converse>(&self.grid()),
                range.start == T::Converse::spec_of_location(self.grid().spec_root()),
                range.end.spec_value() == range.start.spec_value() + n,
                out@.len() == i,
                forall|j: int| 0 <= j < i ==> #[trigger] out@[j] == self.nth_location(j),
            decreases n - i,
        {
            let cross = self.cross_at(i, &range);
            out.push(self.index.combine(cross));
            i = i + 1;
        }
        out
    }

    /// The cells of this view, in ascending order of the converse axis.
    pub fn iter(&self) -> (r: Vec<&'a G::Item>)
        ensures
            r@.len() == axis_len::<G, T::Converse>(&self.grid()),
            forall|i: int|
                0 <= i < r@.len() ==> *#[trigger] r@[i] == self.grid().spec_cell(
                    self.nth_location(i),
                ),
    {
        let range = self.grid.range::<T::Converse>();
        let n = (range.end.value() - range.start.value()) as usize;
        let mut out: Vec<&'a G::Item> = Vec::new();
        let mut i: usize = 0;
        while i < n
            invariant
                i <= n,
                n == axis_len::<G, T::Converse>(&self.grid()),
                range.start == T::Converse::spec_of_location(self.grid().spec_root()),
                range.end.spec_value() == range.start.spec_value() + n,
                out@.len() == i,
                forall|j: int|
                    0 <= j < i ==> *#[trigger] out@[j] == self.grid().spec_cell(
                        self.nth_location(j),
                    ),
            decreases n - i,
        {
            let cross = self.cross_at(i, &range);
            out.push(self.get_unchecked(cross));
            i = i + 1;
        }
        out
    }

    /// The cells of this view paired with their locations, in ascending
    /// order.
    pub fn with_locations(&self) -> (r: Vec<(Location, &'a G::Item)>)
        ensures
            r@.len() == axis_len::<G, T::Converse>(&self.grid()),
            forall|i: int|
                0 <= i < r@.len() ==> (#[trigger] r@[i]).0 == self.nth_location(i) && *r@[i].1
                    == self.grid().spec_cell(self.nth_location(i)),
    {
        let range = self.grid.range::<T::Converse>();
        let n = (range.end.value() - range.start.value()) as usize;
        let mut out: Vec<(Location, &'a G::Item)> = Vec::new();
        let mut i: usize = 0;
        while i < n
            invariant
                i <= n,
                n == axis_len::<G, T::Converse>(&self.grid()),
                range.start == T::Converse::spec_of_location(self.grid().spec_root()),
                range.end.spec_value() == range.start.spec_value() + n,
                out@.len() == i,
                forall|j: int|
                    0 <= j < i ==> (#[trigger] out@[j]).0 == self.nth_location(j) && *out@[j].1
                        == self.grid().spec_cell(self.nth_location(j)),
            decreases n - i,
        {
            let cross = self.cross_at(i, &range);
            out.push((self.index.combine(cross), self.get_unchecked(cross)));
            i = i + 1;
        }
        out
    }

    /// The cells of this view paired with their converse coordinate, in
    /// ascending order.
    pub fn with_component(&self) -> (r: Vec<(T::Converse, &'a G::Item)>)
        ensures
            r@.len() == axis_len::<G, T::Converse>(&self.grid()),
            forall|i: int|
                0 <= i < r@.len() ==> (#[trigger] r@[i]).0 == nth_index::<G, T::Converse>(
                    &self.grid(),
                    i,
                ) && *r@[i].1 == self.grid().spec_cell(self.nth_location(i)),
    {
        let range = self.grid.range::<T::Converse>();
        let n = (range.end.value() - range.start.value()) as usize;
        let mut out: Vec<(T::Converse, &'a G::Item)> = Vec::new();
        let mut i: usize = 0;
        while i < n
            invariant
                i <= n,
                n == axis_len::<G, T::Converse>(&self.grid()),
                range.start == T::Converse::spec_of_location(self.grid().spec_root()),
                range.end.spec_value() == range.start.spec_value() + n,
                out@.len() == i,
                forall|j: int|
                    0 <= j < i ==> (#[trigger] out@[j]).0 == nth_index::<G, T::Converse>(
                        &self.grid(),
                        j,
                    ) && *out@[j].1 == self.grid().spec_cell(self.nth_location(j)),
            decreases n - i,
        {
            let cross = self.cross_at(i, &range);
            out.push((cross, self.get_unchecked(cross)));
            i = i + 1;
        }
        out
    }
}

} // verus!
