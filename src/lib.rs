//! Typed coordinates, bounds checking and read-only row and column views
//! over two-dimensional grids.
pub mod vector;
pub mod location;
pub mod grid;
pub mod view;
pub mod view_mut;
pub mod dense;
