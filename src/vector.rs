use vstd::prelude::*;

verus! {

/// A displacement along the vertical axis, counted in rows.
#[derive(Debug, Clone, Copy, Default, PartialEq, Eq, PartialOrd, Ord, Hash, Structural)]
pub struct Rows(pub isize);

/// A displacement along the horizontal axis, counted in columns.
#[derive(Debug, Clone, Copy, Default, PartialEq, Eq, PartialOrd, Ord, Hash, Structural)]
pub struct Columns(pub isize);

/// A difference between two locations, or the size of a grid.
#[derive(Debug, Clone, Copy, Default, PartialEq, Eq, Hash, Structural)]
pub struct Vector {
    pub rows: Rows,
    pub columns: Columns,
}

/// One of the four axis-aligned directions.
#[derive(Debug, Clone, Copy, PartialEq, Eq, Hash, Structural)]
pub enum Direction {
    Up,
    Down,
    Left,
    Right,
}

/// The unit displacement of a direction, scaled by `distance`.
pub open spec fn direction_vector(direction: Direction, distance: int) -> (int, int) {
    match direction {
        Direction::Up => (-distance, 0),
        Direction::Down => (distance, 0),
        Direction::Left => (0, -distance),
        Direction::Right => (0, distance),
    }
}

impl Vector {
    pub fn new(rows: Rows, columns: Columns) -> (r: Vector)
        ensures
            r.rows == rows,
            r.columns == columns,
    {
        Vector { rows, columns }
    }

    /// A movement of `distance` cells in `direction`.
    pub fn in_direction(direction: Direction, distance: isize) -> (r: Vector)
        requires
            distance != isize::MIN,
        ensures
            r.rows.0 == direction_vector(direction, distance as int).0,
            r.columns.0 == direction_vector(direction, distance as int).1,
    {
        match direction {
            Direction::Up => Vector { rows: Rows(-distance), columns: Columns(0) },
            Direction::Down => Vector { rows: Rows(distance), columns: Columns(0) },
            Direction::Left => Vector { rows: Rows(0), columns: Columns(-distance) },
            Direction::Right => Vector { rows: Rows(0), columns: Columns(distance) },
        }
    }
}

} // verus!
