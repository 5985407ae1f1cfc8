use vstd::prelude::*;

use crate::grid::{bounds_fit, location_in, GridBounds};
use crate::location::{Column, Location, Row};
use crate::vector::{Columns, Rows, Vector};
use crate::view::BaseGrid;
use crate::view_mut::BaseGridMut;

verus! {

/// The position in row-major storage of the cell at `loc`.
pub open spec fn dense_index(root: Location, dims: Vector, loc: Location) -> int {
    (loc.row.0 - root.row.0) * dims.columns.0 + (loc.column.0 - root.column.0)
}

/// In-bounds locations fall inside row-major storage of `rows * columns` cells.
proof fn lemma_dense_index(root: Location, dims: Vector, loc: Location)
    requires
        location_in(root, dims, loc),
    ensures
        0 <= dense_index(root, dims, loc) < dims.rows.0 * dims.columns.0,
        (loc.row.0 - root.row.0) * dims.columns.0 <= dense_index(root, dims, loc),
{
    let dr = loc.row.0 - root.row.0;
    let dc = loc.column.0 - root.column.0;
    let rows = dims.rows.0 as int;
    let cols = dims.columns.0 as int;
    assert(0 <= dr * cols + dc < rows * cols) by (nonlinear_arith)
        requires
            0 <= dr < rows,
            0 <= dc < cols,
    ;
}

/// Distinct in-bounds locations are stored at distinct positions.
proof fn lemma_dense_index_injective(root: Location, dims: Vector, a: Location, b: Location)
    requires
        location_in(root, dims, a),
        location_in(root, dims, b),
        a != b,
    ensures
        dense_index(root, dims, a) != dense_index(root, dims, b),
{
    let ra = a.row.0 - root.row.0;
    let ca = a.column.0 - root.column.0;
    let rb = b.row.0 - root.row.0;
    let cb = b.column.0 - root.column.0;
    let cols = dims.columns.0 as int;
    assert(ra * cols + ca == rb * cols + cb ==> ra == rb && ca == cb) by (nonlinear_arith)
        requires
            0 <= ra,
            0 <= rb,
            0 <= ca < cols,
            0 <= cb < cols,
    ;
}

/// A dense grid: every cell stored, row after row, in one vector.
pub struct VecGrid<T> {
    root: Location,
    dimensions: Vector,
    cells: Vec<T>,
}

impl<T> VecGrid<T> {
    #[verifier::type_invariant]
    spec fn well_formed(&self) -> bool {
        &&& bounds_fit(self.root, self.dimensions)
        &&& self.cells@.len() == self.dimensions.rows.0 * self.dimensions.columns.0
    }

    /// The stored cells, row after row.
    pub closed spec fn cells(&self) -> Seq<T> {
        self.cells@
    }

    /// A grid with top left location `root` and size `dimensions`, holding
    /// `cells` row after row. Returns `None` if the number of cells does not
    /// match the size, or the size is negative or reaches past the largest
    /// coordinate.
    pub fn new(root: Location, dimensions: Vector, cells: Vec<T>) -> (r: Option<VecGrid<T>>)
        ensures
            r is Some <==> bounds_fit(root, dimensions) && cells@.len() == dimensions.rows.0
                * dimensions.columns.0,
            r matches Some(g) ==> g.spec_root() == root && g.spec_dimensions() == dimensions
                && g.cells() == cells@,
    {
        if dimensions.rows.0 < 0 || dimensions.columns.0 < 0 {
            return None;
        }
        if root.row.0 > isize::MAX - dimensions.rows.0 || root.column.0 > isize::MAX
            - dimensions.columns.0 {
            return None;
        }
        let len = cells.len();
        match (dimensions.rows.0 as usize).checked_mul(dimensions.columns.0 as usize) {
            Some(n) => {
                if n != len {
                    return None;
                }
            },
            None => {
                return None;
            },
        }
        Some(VecGrid { root, dimensions, cells })
    }

    fn index_of(&self, loc: &Location) -> (r: usize)
        requires
            location_in(self.root, self.dimensions, *loc),
        ensures
            r == dense_index(self.root, self.dimensions, *loc),
            r < self.cells@.len(),
    {
        proof {
            use_type_invariant(self);
            lemma_dense_index(self.root, self.dimensions, *loc);
            assert(self.cells@.len() == self.cells.len());
        }
        let dr = (loc.row.0 - self.root.row.0) as usize;
        let dc = (loc.column.0 - self.root.column.0) as usize;
        dr * (self.dimensions.columns.0 as usize) + dc
    }
}

impl<T> GridBounds for VecGrid<T> {
    closed spec fn spec_root(&self) -> Location {
        self.root
    }

    closed spec fn spec_dimensions(&self) -> Vector {
        self.dimensions
    }

    fn root_row(&self) -> Row {
        self.root.row
    }

    fn root_column(&self) -> Column {
        self.root.column
    }

    fn num_rows(&self) -> Rows {
        proof {
            use_type_invariant(self);
        }
        self.dimensions.rows
    }

    fn num_columns(&self) -> Columns {
        proof {
            use_type_invariant(self);
        }
        self.dimensions.columns
    }
}

impl<T> BaseGrid for VecGrid<T> {
    type Item = T;

    closed spec fn spec_cell(&self, loc: Location) -> T {
        self.cells@[dense_index(self.root, self.dimensions, loc)]
    }

    fn get_unchecked(&self, loc: &Location) -> &T {
        let i = self.index_of(loc);
        &self.cells[i]
    }
}

impl<T> BaseGridMut for VecGrid<T> {
    fn get_unchecked_mut(&mut self, loc: &Location) -> &mut T {
        let i = self.index_of(loc);
        proof {
            use_type_invariant(&*self);
            assert forall|l: Location|
                location_in(self.root, self.dimensions, l) && l != *loc implies #[trigger] dense_index(
                self.root,
                self.dimensions,
                l,
            ) != i && 0 <= dense_index(self.root, self.dimensions, l) < self.cells@.len() by {
                lemma_dense_index_injective(self.root, self.dimensions, l, *loc);
                lemma_dense_index(self.root, self.dimensions, l);
            }
        }
        &mut self.cells[i]
    }
}

} // verus!
