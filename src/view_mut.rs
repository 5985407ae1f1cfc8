use vstd::prelude::*;

use crate::grid::{checked_location, location_in, GridBounds, LocationRangeError};
use crate::location::Location;
use crate::view::BaseGrid;

verus! {

/// A grid whose cells can be changed by location.
pub trait BaseGridMut: BaseGrid {
    /// Get a mutable reference to a cell, without bounds checking; the caller
    /// has already established that `loc` is inside the grid. Writing
    /// through it changes that cell only, and not the grid's shape.
    fn get_unchecked_mut(&mut self, loc: &Location) -> (r: &mut Self::Item)
        requires
            location_in((*old(self)).spec_root(), (*old(self)).spec_dimensions(), *loc),
        ensures
            *r == (*old(self)).spec_cell(*loc),
            (*final(self)).spec_root() == (*old(self)).spec_root(),
            (*final(self)).spec_dimensions() == (*old(self)).spec_dimensions(),
            (*final(self)).spec_cell(*loc) == *final(r),
            forall|l: Location|
                location_in((*old(self)).spec_root(), (*old(self)).spec_dimensions(), l) && l != *loc
                    ==> #[trigger] (*final(self)).spec_cell(l) == (*old(self)).spec_cell(l),
    ;
}

/// Cells written through an exclusive reference are the referenced grid's.
impl<'g, G: BaseGridMut> BaseGridMut for &'g mut G {
    fn get_unchecked_mut(&mut self, loc: &Location) -> &mut G::Item {
        (**self).get_unchecked_mut(loc)
    }
}

/// Checked mutable access, for every [`BaseGridMut`].
pub trait GridMut: BaseGridMut {
    /// Get a mutable reference to a cell. Returns the bounds error of the
    /// location, and leaves the grid as it was, if it is outside the grid.
    fn get_mut(&mut self, location: Location) -> (r: Result<&mut Self::Item, LocationRangeError>)
        ensures
            r is Ok <==> location_in((*old(self)).spec_root(), (*old(self)).spec_dimensions(), location),
            (*final(self)).spec_root() == (*old(self)).spec_root(),
            (*final(self)).spec_dimensions() == (*old(self)).spec_dimensions(),
            r matches Ok(c) ==> *c == (*old(self)).spec_cell(location) && (*final(self)).spec_cell(location)
                == *final(c) && forall|l: Location|
                location_in((*old(self)).spec_root(), (*old(self)).spec_dimensions(), l) && l != location
                    ==> #[trigger] (*final(self)).spec_cell(l) == (*old(self)).spec_cell(l),
            r matches Err(e) ==> checked_location(
                (*old(self)).spec_root(),
                (*old(self)).spec_dimensions(),
                location,
            ) == Err::<Location, LocationRangeError>(e) && *final(self) == *old(self),
    {
        match self.check_location(location) {
            Ok(loc) => Ok(self.get_unchecked_mut(&loc)),
            Err(e) => Err(e),
        }
    }
}

impl<G: BaseGridMut> GridMut for G {
}

} // verus!
