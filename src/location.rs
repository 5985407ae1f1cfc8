use vstd::prelude::*;

use crate::vector::{direction_vector, Columns, Direction, Rows, Vector};

verus! {

/// The vertical coordinate of a cell.
#[derive(Debug, Clone, Copy, Default, PartialEq, Eq, PartialOrd, Ord, Hash, Structural)]
pub struct Row(pub isize);

/// The horizontal coordinate of a cell.
#[derive(Debug, Clone, Copy, Default, PartialEq, Eq, PartialOrd, Ord, Hash, Structural)]
pub struct Column(pub isize);

/// The position of one cell: a row crossed with a column.
#[derive(Debug, Clone, Copy, Default, PartialEq, Eq, Hash, Structural)]
pub struct Location {
    pub row: Row,
    pub column: Column,
}

impl Row {
    /// This row moved down by `distance`.
    pub fn add(self, distance: Rows) -> (r: Row)
        requires
            isize::MIN <= self.0 + distance.0 <= isize::MAX,
        ensures
            r.0 == self.0 + distance.0,
    {
        Row(self.0 + distance.0)
    }

    /// This row moved up by `distance`.
    pub fn sub(self, distance: Rows) -> (r: Row)
        requires
            isize::MIN <= self.0 - distance.0 <= isize::MAX,
        ensures
            r.0 == self.0 - distance.0,
    {
        Row(self.0 - distance.0)
    }
}

impl Column {
    /// This column moved right by `distance`.
    pub fn add(self, distance: Columns) -> (r: Column)
        requires
            isize::MIN <= self.0 + distance.0 <= isize::MAX,
        ensures
            r.0 == self.0 + distance.0,
    {
        Column(self.0 + distance.0)
    }

    /// This column moved left by `distance`.
    pub fn sub(self, distance: Columns) -> (r: Column)
        requires
            isize::MIN <= self.0 - distance.0 <= isize::MAX,
        ensures
            r.0 == self.0 - distance.0,
    {
        Column(self.0 - distance.0)
    }
}

/// A coordinate along one axis of a grid: a [`Row`] or a [`Column`].
pub trait Coordinate: Sized + Copy {
    /// The displacement type along this axis.
    type Distance;

    /// The raw coordinate.
    spec fn spec_value(self) -> isize;

    /// Whether this is the vertical axis.
    spec fn is_row_axis() -> bool;

    /// The coordinate holding the raw value `v`.
    spec fn spec_from_value(v: isize) -> Self;

    /// This axis's coordinate of a location.
    spec fn spec_of_location(loc: Location) -> Self;

    /// The extent along this axis of a size vector.
    spec fn spec_extent(dims: Vector) -> isize;

    /// How the abstract operations read locations and vectors.
    proof fn lemma_axis(loc: Location, dims: Vector)
        ensures
            Self::is_row_axis() ==> Self::spec_of_location(loc).spec_value() == loc.row.0
                && Self::spec_extent(dims) == dims.rows.0,
            !Self::is_row_axis() ==> Self::spec_of_location(loc).spec_value() == loc.column.0
                && Self::spec_extent(dims) == dims.columns.0,
    ;

    /// The raw value identifies the coordinate.
    proof fn lemma_value(v: isize, c: Self)
        ensures
            Self::spec_from_value(v).spec_value() == v,
            Self::spec_from_value(c.spec_value()) == c,
    ;

    fn value(self) -> (r: isize)
        ensures
            r == self.spec_value(),
    ;

    fn from_value(v: isize) -> (r: Self)
        ensures
            r == Self::spec_from_value(v),
    ;

    /// Get this coordinate of a [`Location`].
    fn from_location(location: &Location) -> (r: Self)
        ensures
            r == Self::spec_of_location(*location),
    ;

    /// Get this axis's extent of a size vector.
    fn extent(dims: &Vector) -> (r: isize)
        ensures
            r == Self::spec_extent(*dims),
    ;
}

/// One axis of a [`Location`], with its converse: the other axis.
///
/// Combining a component with a value of its converse gives a location.
pub trait Component: Coordinate {
    /// The other axis.
    type Converse: Coordinate;

    /// The location at this component crossed with `other`.
    spec fn spec_combine(self, other: Self::Converse) -> Location;

    /// The converse is the other axis, and a combined location splits back
    /// into its two components.
    proof fn lemma_combine(a: Self, b: Self::Converse)
        ensures
            Self::is_row_axis() != Self::Converse::is_row_axis(),
            Self::spec_of_location(a.spec_combine(b)) == a,
            Self::Converse::spec_of_location(a.spec_combine(b)) == b,
    ;

    /// Combine this component with its converse to create a [`Location`].
    fn combine(self, other: Self::Converse) -> (r: Location)
        ensures
            r == self.spec_combine(other),
    ;
}

impl Coordinate for Row {
    type Distance = Rows;

    open spec fn spec_value(self) -> isize {
        self.0
    }

    open spec fn is_row_axis() -> bool {
        true
    }

    open spec fn spec_from_value(v: isize) -> Row {
        Row(v)
    }

    open spec fn spec_of_location(loc: Location) -> Row {
        loc.row
    }

    open spec fn spec_extent(dims: Vector) -> isize {
        dims.rows.0
    }

    proof fn lemma_axis(loc: Location, dims: Vector) {
    }

    proof fn lemma_value(v: isize, c: Row) {
    }

    fn value(self) -> isize {
        self.0
    }

    fn from_value(v: isize) -> Row {
        Row(v)
    }

    fn from_location(location: &Location) -> Row {
        location.row
    }

    fn extent(dims: &Vector) -> isize {
        dims.rows.0
    }
}

impl Component for Row {
    type Converse = Column;

    open spec fn spec_combine(self, other: Column) -> Location {
        Location { row: self, column: other }
    }

    proof fn lemma_combine(a: Row, b: Column) {
    }

    fn combine(self, other: Column) -> Location {
        Location::new(self, other)
    }
}

impl Coordinate for Column {
    type Distance = Columns;

    open spec fn spec_value(self) -> isize {
        self.0
    }

    open spec fn is_row_axis() -> bool {
        false
    }

    open spec fn spec_from_value(v: isize) -> Column {
        Column(v)
    }

    open spec fn spec_of_location(loc: Location) -> Column {
        loc.column
    }

    open spec fn spec_extent(dims: Vector) -> isize {
        dims.columns.0
    }

    proof fn lemma_axis(loc: Location, dims: Vector) {
    }

    proof fn lemma_value(v: isize, c: Column) {
    }

    fn value(self) -> isize {
        self.0
    }

    fn from_value(v: isize) -> Column {
        Column(v)
    }

    fn from_location(location: &Location) -> Column {
        location.column
    }

    fn extent(dims: &Vector) -> isize {
        dims.columns.0
    }
}

impl Component for Column {
    type Converse = Row;

    open spec fn spec_combine(self, other: Row) -> Location {
        Location { row: other, column: self }
    }

    proof fn lemma_combine(a: Column, b: Row) {
    }

    fn combine(self, other: Row) -> Location {
        Location::new(other, self)
    }
}

/// Whether moving `loc` by (`dr`, `dc`) stays inside the `isize` coordinates.
pub open spec fn offset_fits(loc: Location, dr: int, dc: int) -> bool {
    &&& isize::MIN <= loc.row.0 + dr <= isize::MAX
    &&& isize::MIN <= loc.column.0 + dc <= isize::MAX
}

/// `loc` moved by (`dr`, `dc`).
pub open spec fn offset(loc: Location, dr: int, dc: int) -> Location
    recommends
        offset_fits(loc, dr, dc),
{
    Location { row: Row((loc.row.0 + dr) as isize), column: Column((loc.column.0 + dc) as isize) }
}

impl Location {
    pub fn new(row: Row, column: Column) -> (r: Location)
        ensures
            r.row == row,
            r.column == column,
    {
        Location { row, column }
    }

    /// The location (0, 0).
    pub fn origin() -> (r: Location)
        ensures
            r.row.0 == 0,
            r.column.0 == 0,
    {
        Location::new(Row(0), Column(0))
    }

    /// Get the row or the column of this location.
    pub fn get_component<T: Coordinate>(&self) -> (r: T)
        ensures
            r == T::spec_of_location(*self),
    {
        T::from_location(self)
    }

    /// This location moved by `v`.
    pub fn add(self, v: Vector) -> (r: Location)
        requires
            offset_fits(self, v.rows.0 as int, v.columns.0 as int),
        ensures
            r == offset(self, v.rows.0 as int, v.columns.0 as int),
    {
        Location::new(self.row.add(v.rows), self.column.add(v.columns))
    }

    /// This location moved by the opposite of `v`.
    pub fn sub(self, v: Vector) -> (r: Location)
        requires
            offset_fits(self, -v.rows.0, -v.columns.0),
        ensures
            r == offset(self, -v.rows.0, -v.columns.0),
    {
        Location::new(self.row.sub(v.rows), self.column.sub(v.columns))
    }

    /// Move this location by `v`.
    pub fn add_assign(&mut self, v: Vector)
        requires
            offset_fits(*old(self), v.rows.0 as int, v.columns.0 as int),
        ensures
            *final(self) == offset(*old(self), v.rows.0 as int, v.columns.0 as int),
    {
        self.row = self.row.add(v.rows);
        self.column = self.column.add(v.columns);
    }

    /// Move this location by the opposite of `v`.
    pub fn sub_assign(&mut self, v: Vector)
        requires
            offset_fits(*old(self), -v.rows.0, -v.columns.0),
        ensures
            *final(self) == offset(*old(self), -v.rows.0, -v.columns.0),
    {
        self.row = self.row.sub(v.rows);
        self.column = self.column.sub(v.columns);
    }

    /// The location `distance` rows above this one.
    pub fn above(&self, distance: Rows) -> (r: Location)
        requires
            offset_fits(*self, -distance.0, 0),
        ensures
            r == offset(*self, -distance.0, 0),
    {
        self.sub(Vector::new(distance, Columns(0)))
    }

    /// The location `distance` rows below this one.
    pub fn below(&self, distance: Rows) -> (r: Location)
        requires
            offset_fits(*self, distance.0 as int, 0),
        ensures
            r == offset(*self, distance.0 as int, 0),
    {
        self.add(Vector::new(distance, Columns(0)))
    }

    /// The location `distance` columns left of this one.
    pub fn left(&self, distance: Columns) -> (r: Location)
        requires
            offset_fits(*self, 0, -distance.0),
        ensures
            r == offset(*self, 0, -distance.0),
    {
        self.sub(Vector::new(Rows(0), distance))
    }

    /// The location `distance` columns right of this one.
    pub fn right(&self, distance: Columns) -> (r: Location)
        requires
            offset_fits(*self, 0, distance.0 as int),
        ensures
            r == offset(*self, 0, distance.0 as int),
    {
        self.add(Vector::new(Rows(0), distance))
    }

    /// The location `distance` cells away from this one in `direction`.
    pub fn relative(&self, direction: Direction, distance: isize) -> (r: Location)
        requires
            distance != isize::MIN,
            offset_fits(
                *self,
                direction_vector(direction, distance as int).0,
                direction_vector(direction, distance as int).1,
            ),
        ensures
            r == offset(
                *self,
                direction_vector(direction, distance as int).0,
                direction_vector(direction, distance as int).1,
            ),
    {
        self.add(Vector::in_direction(direction, distance))
    }
}

impl From<(Row, Column)> for Location {
    fn from(value: (Row, Column)) -> (r: Location)
    {
        Location::new(value.0, value.1)
    }
}

impl vstd::std_specs::convert::FromSpecImpl<(Row, Column)> for Location {
    open spec fn obeys_from_spec() -> bool {
        true
    }

    open spec fn from_spec(v: (Row, Column)) -> Location {
        Location { row: v.0, column: v.1 }
    }
}

impl From<(isize, isize)> for Location {
    fn from(value: (isize, isize)) -> (r: Location) {
        Location::new(Row(value.0), Column(value.1))
    }
}

impl vstd::std_specs::convert::FromSpecImpl<(isize, isize)> for Location {
    open spec fn obeys_from_spec() -> bool {
        true
    }

    open spec fn from_spec(v: (isize, isize)) -> Location {
        Location { row: Row(v.0), column: Column(v.1) }
    }
}

impl From<isize> for Row {
    fn from(value: isize) -> (r: Row) {
        Row(value)
    }
}

impl vstd::std_specs::convert::FromSpecImpl<isize> for Row {
    open spec fn obeys_from_spec() -> bool {
        true
    }

    open spec fn from_spec(v: isize) -> Row {
        Row(v)
    }
}

impl From<isize> for Column {
    fn from(value: isize) -> (r: Column) {
        Column(value)
    }
}

impl vstd::std_specs::convert::FromSpecImpl<isize> for Column {
    open spec fn obeys_from_spec() -> bool {
        true
    }

    open spec fn from_spec(v: isize) -> Column {
        Column(v)
    }
}

/// Combining a row with a column and taking the location apart again gives
/// back the same row and the same column.
pub proof fn lemma_combine_round_trip(r: Row, c: Column)
    ensures
        r.spec_combine(c).row == r,
        r.spec_combine(c).column == c,
        Row::spec_of_location(r.spec_combine(c)) == r,
        Column::spec_of_location(r.spec_combine(c)) == c,
        c.spec_combine(r) == r.spec_combine(c),
{
}

} // verus!
