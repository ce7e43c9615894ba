//! A wrapper that hands one owned value to the engine-facing systems.  In
//! designs that share chunks between systems it is the place where an
//! interior-mutability cell would sit; this engine owns every chunk
//! through a single container and never aliases one, so the wrapper
//! simply carries its value.

use vstd::prelude::*;

verus! {

#[derive(Clone)]
pub struct UnsafeCellWrapper<T>(pub T);

impl<T> UnsafeCellWrapper<T> {
    pub fn new(value: T) -> (r: Self)
        ensures
            r.0 == value,
    {
        UnsafeCellWrapper(value)
    }

    /// Gives the wrapped value back.
    pub fn into_inner(self) -> (r: T)
        ensures
            r == self.0,
    {
        self.0
    }
}

} // verus!
