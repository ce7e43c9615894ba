//! The settled materials of the simulation: a cell is one unit of sand or
//! water occupying a grid slot, carrying its display color and the tick on
//! which it was last moved or refreshed.

use vstd::prelude::*;

verus! {

/// The material of a cell; it determines the movement rule class.
#[derive(Clone, Copy, PartialEq, Eq, Structural, Debug)]
pub enum CellType {
    Sand,
    Water,
}

/// An RGBA color with 8 bits per channel.
#[derive(Clone, Copy, PartialEq, Eq, Structural, Debug)]
pub struct CellColor {
    pub r: u8,
    pub g: u8,
    pub b: u8,
    pub a: u8,
}

impl CellColor {
    /// The fully transparent color written where a cell was cleared.
    pub open spec fn spec_transparent() -> CellColor {
        CellColor { r: 0, g: 0, b: 0, a: 0 }
    }

    pub fn transparent() -> (r: CellColor)
        ensures
            r == CellColor::spec_transparent(),
    {
        CellColor { r: 0, g: 0, b: 0, a: 0 }
    }
}

/// A settled unit of material occupying one grid slot.  The tick stamp
/// prevents a cell from being processed twice within the same scan after it
/// has moved into a slot the scan has not reached yet.
#[derive(Clone, Copy, PartialEq, Eq, Structural, Debug)]
pub struct Cell {
    pub cell_type: CellType,
    pub color: CellColor,
    pub last_iteration_updated: u64,
}

} // verus!
